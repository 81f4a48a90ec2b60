use vstd::prelude::*;

use crate::utils::text::str_eq;

verus! {

/// What a stat of an item measures.
#[derive(Debug, Clone, Copy, PartialEq, Eq, Hash, Structural)]
pub enum ArtifactStatName {
    HealingBonus,
    CriticalDamage,
    Critical,
    Atk,
    AtkPercentage,
    ElementalMastery,
    Recharge,
    HpPercentage,
    Hp,
    DefPercentage,
    Def,
    ElectroBonus,
    PyroBonus,
    HydroBonus,
    CryoBonus,
    AnemoBonus,
    GeoBonus,
    PhysicalBonus,
    DendroBonus,
}

/// Where an item is worn.
#[derive(Debug, Clone, Copy, PartialEq, Eq, Hash, Structural)]
pub enum ArtifactSlot {
    Flower,
    Feather,
    Sand,
    Goblet,
    Head,
}

/// The set that an item belongs to.
#[derive(Debug, Clone, Copy, PartialEq, Eq, Hash, Structural)]
pub enum ArtifactSetName {
    ArchaicPetra,
    HeartOfDepth,
    BlizzardStrayer,
    RetracingBolide,
    NoblesseOblige,
    GladiatorFinale,
    MaidenBeloved,
    ViridescentVenerer,
    LavaWalker,
    CrimsonWitch,
    ThunderSmoother,
    ThunderingFury,
    BloodstainedChivalry,
    WandererTroupe,
    Scholar,
    Gambler,
    TinyMiracle,
    MartialArtist,
    BraveHeart,
    ResolutionOfSojourner,
    DefenderWill,
    Berserker,
    Instructor,
    Exile,
    Adventurer,
    LuckyDog,
    TravelingDoctor,
    PrayersForWisdom,
    PrayersToSpringtime,
    PrayersForIllumination,
    PrayersForDestiny,
    PaleFlame,
    TenacityOfTheMillelith,
    EmblemOfSeveredFate,
    ShimenawaReminiscence,
    HuskOfOpulentDreams,
    OceanHuedClam,
    VermillionHereafter,
    EchoesOfAnOffering,
    DeepwoodMemories,
    GildedDreams,
    FlowerOfParadiseLost,
    DesertPavilionChronicle,
    NymphsDream,
    VourukashasGlow,
    MarechausseeHunter,
    GoldenTroupe,
    SongOfDaysPast,
    NighttimeWhispersInTheEchoingWoods,
    FragmentOfHarmonicWhimsy,
    UnfinishedReverie,
    ScrollOfTheHeroOfCinderCity,
    ObsidianCodex,
    LongNightsOath,
    FinaleOfTheDeepGalleries,
}

/// The stat that a label names. Three labels name two stats each, a plain
/// one and a percentage.
pub open spec fn stat_name_of(name: Seq<char>, is_percentage: bool) -> Option<ArtifactStatName> {
    if name == "治疗加成"@ {
        Some(ArtifactStatName::HealingBonus)
    } else if name == "暴击伤害"@ || name == "暴击伤"@ {
        Some(ArtifactStatName::CriticalDamage)
    } else if name == "暴击率"@ {
        Some(ArtifactStatName::Critical)
    } else if name == "攻击力"@ {
        if is_percentage {
            Some(ArtifactStatName::AtkPercentage)
        } else {
            Some(ArtifactStatName::Atk)
        }
    } else if name == "元素精通"@ {
        Some(ArtifactStatName::ElementalMastery)
    } else if name == "元素充能效率"@ {
        Some(ArtifactStatName::Recharge)
    } else if name == "生命值"@ {
        if is_percentage {
            Some(ArtifactStatName::HpPercentage)
        } else {
            Some(ArtifactStatName::Hp)
        }
    } else if name == "防御力"@ {
        if is_percentage {
            Some(ArtifactStatName::DefPercentage)
        } else {
            Some(ArtifactStatName::Def)
        }
    } else if name == "雷元素伤害加成"@ {
        Some(ArtifactStatName::ElectroBonus)
    } else if name == "火元素伤害加成"@ {
        Some(ArtifactStatName::PyroBonus)
    } else if name == "水元素伤害加成"@ {
        Some(ArtifactStatName::HydroBonus)
    } else if name == "冰元素伤害加成"@ {
        Some(ArtifactStatName::CryoBonus)
    } else if name == "风元素伤害加成"@ {
        Some(ArtifactStatName::AnemoBonus)
    } else if name == "岩元素伤害加成"@ {
        Some(ArtifactStatName::GeoBonus)
    } else if name == "草元素伤害加成"@ {
        Some(ArtifactStatName::DendroBonus)
    } else if name == "物理伤害加成"@ {
        Some(ArtifactStatName::PhysicalBonus)
    } else {
        None
    }
}

impl ArtifactStatName {
    /// The stat that a label names.
    pub fn from_zh_cn(name: &str, is_percentage: bool) -> (stat: Option<ArtifactStatName>)
        ensures
            stat == stat_name_of(name@, is_percentage),
    {
        if str_eq(name, "治疗加成") {
            Some(ArtifactStatName::HealingBonus)
        } else if str_eq(name, "暴击伤害") || str_eq(name, "暴击伤") {
            Some(ArtifactStatName::CriticalDamage)
        } else if str_eq(name, "暴击率") {
            Some(ArtifactStatName::Critical)
        } else if str_eq(name, "攻击力") {
            if is_percentage {
                Some(ArtifactStatName::AtkPercentage)
            } else {
                Some(ArtifactStatName::Atk)
            }
        } else if str_eq(name, "元素精通") {
            Some(ArtifactStatName::ElementalMastery)
        } else if str_eq(name, "元素充能效率") {
            Some(ArtifactStatName::Recharge)
        } else if str_eq(name, "生命值") {
            if is_percentage {
                Some(ArtifactStatName::HpPercentage)
            } else {
                Some(ArtifactStatName::Hp)
            }
        } else if str_eq(name, "防御力") {
            if is_percentage {
                Some(ArtifactStatName::DefPercentage)
            } else {
                Some(ArtifactStatName::Def)
            }
        } else if str_eq(name, "雷元素伤害加成") {
            Some(ArtifactStatName::ElectroBonus)
        } else if str_eq(name, "火元素伤害加成") {
            Some(ArtifactStatName::PyroBonus)
        } else if str_eq(name, "水元素伤害加成") {
            Some(ArtifactStatName::HydroBonus)
        } else if str_eq(name, "冰元素伤害加成") {
            Some(ArtifactStatName::CryoBonus)
        } else if str_eq(name, "风元素伤害加成") {
            Some(ArtifactStatName::AnemoBonus)
        } else if str_eq(name, "岩元素伤害加成") {
            Some(ArtifactStatName::GeoBonus)
        } else if str_eq(name, "草元素伤害加成") {
            Some(ArtifactStatName::DendroBonus)
        } else if str_eq(name, "物理伤害加成") {
            Some(ArtifactStatName::PhysicalBonus)
        } else {
            None
        }
    }

    /// The stat's name.
    pub open spec fn name_text(self) -> Seq<char> {
        match self {
            ArtifactStatName::HealingBonus => "HealingBonus"@,
            ArtifactStatName::CriticalDamage => "CriticalDamage"@,
            ArtifactStatName::Critical => "Critical"@,
            ArtifactStatName::Atk => "Atk"@,
            ArtifactStatName::AtkPercentage => "AtkPercentage"@,
            ArtifactStatName::ElementalMastery => "ElementalMastery"@,
            ArtifactStatName::Recharge => "Recharge"@,
            ArtifactStatName::HpPercentage => "HpPercentage"@,
            ArtifactStatName::Hp => "Hp"@,
            ArtifactStatName::DefPercentage => "DefPercentage"@,
            ArtifactStatName::Def => "Def"@,
            ArtifactStatName::ElectroBonus => "ElectroBonus"@,
            ArtifactStatName::PyroBonus => "PyroBonus"@,
            ArtifactStatName::HydroBonus => "HydroBonus"@,
            ArtifactStatName::CryoBonus => "CryoBonus"@,
            ArtifactStatName::AnemoBonus => "AnemoBonus"@,
            ArtifactStatName::GeoBonus => "GeoBonus"@,
            ArtifactStatName::PhysicalBonus => "PhysicalBonus"@,
            ArtifactStatName::DendroBonus => "DendroBonus"@,
        }
    }

    /// The stat's name.
    pub fn name(self) -> (text: &'static str)
        ensures
            text@ == self.name_text(),
    {
        match self {
            ArtifactStatName::HealingBonus => "HealingBonus",
            ArtifactStatName::CriticalDamage => "CriticalDamage",
            ArtifactStatName::Critical => "Critical",
            ArtifactStatName::Atk => "Atk",
            ArtifactStatName::AtkPercentage => "AtkPercentage",
            ArtifactStatName::ElementalMastery => "ElementalMastery",
            ArtifactStatName::Recharge => "Recharge",
            ArtifactStatName::HpPercentage => "HpPercentage",
            ArtifactStatName::Hp => "Hp",
            ArtifactStatName::DefPercentage => "DefPercentage",
            ArtifactStatName::Def => "Def",
            ArtifactStatName::ElectroBonus => "ElectroBonus",
            ArtifactStatName::PyroBonus => "PyroBonus",
            ArtifactStatName::HydroBonus => "HydroBonus",
            ArtifactStatName::CryoBonus => "CryoBonus",
            ArtifactStatName::AnemoBonus => "AnemoBonus",
            ArtifactStatName::GeoBonus => "GeoBonus",
            ArtifactStatName::PhysicalBonus => "PhysicalBonus",
            ArtifactStatName::DendroBonus => "DendroBonus",
        }
    }
}

impl ArtifactSlot {
    /// The slot's name.
    pub open spec fn name_text(self) -> Seq<char> {
        match self {
            ArtifactSlot::Flower => "Flower"@,
            ArtifactSlot::Feather => "Feather"@,
            ArtifactSlot::Sand => "Sand"@,
            ArtifactSlot::Goblet => "Goblet"@,
            ArtifactSlot::Head => "Head"@,
        }
    }

    /// The slot's name.
    pub fn name(self) -> (text: &'static str)
        ensures
            text@ == self.name_text(),
    {
        match self {
            ArtifactSlot::Flower => "Flower",
            ArtifactSlot::Feather => "Feather",
            ArtifactSlot::Sand => "Sand",
            ArtifactSlot::Goblet => "Goblet",
            ArtifactSlot::Head => "Head",
        }
    }
}

impl ArtifactSetName {
    /// The set's name.
    pub open spec fn name_text(self) -> Seq<char> {
        match self {
            ArtifactSetName::ArchaicPetra => "ArchaicPetra"@,
            ArtifactSetName::HeartOfDepth => "HeartOfDepth"@,
            ArtifactSetName::BlizzardStrayer => "BlizzardStrayer"@,
            ArtifactSetName::RetracingBolide => "RetracingBolide"@,
            ArtifactSetName::NoblesseOblige => "NoblesseOblige"@,
            ArtifactSetName::GladiatorFinale => "GladiatorFinale"@,
            ArtifactSetName::MaidenBeloved => "MaidenBeloved"@,
            ArtifactSetName::ViridescentVenerer => "ViridescentVenerer"@,
            ArtifactSetName::LavaWalker => "LavaWalker"@,
            ArtifactSetName::CrimsonWitch => "CrimsonWitch"@,
            ArtifactSetName::ThunderSmoother => "ThunderSmoother"@,
            ArtifactSetName::ThunderingFury => "ThunderingFury"@,
            ArtifactSetName::BloodstainedChivalry => "BloodstainedChivalry"@,
            ArtifactSetName::WandererTroupe => "WandererTroupe"@,
            ArtifactSetName::Scholar => "Scholar"@,
            ArtifactSetName::Gambler => "Gambler"@,
            ArtifactSetName::TinyMiracle => "TinyMiracle"@,
            ArtifactSetName::MartialArtist => "MartialArtist"@,
            ArtifactSetName::BraveHeart => "BraveHeart"@,
            ArtifactSetName::ResolutionOfSojourner => "ResolutionOfSojourner"@,
            ArtifactSetName::DefenderWill => "DefenderWill"@,
            ArtifactSetName::Berserker => "Berserker"@,
            ArtifactSetName::Instructor => "Instructor"@,
            ArtifactSetName::Exile => "Exile"@,
            ArtifactSetName::Adventurer => "Adventurer"@,
            ArtifactSetName::LuckyDog => "LuckyDog"@,
            ArtifactSetName::TravelingDoctor => "TravelingDoctor"@,
            ArtifactSetName::PrayersForWisdom => "PrayersForWisdom"@,
            ArtifactSetName::PrayersToSpringtime => "PrayersToSpringtime"@,
            ArtifactSetName::PrayersForIllumination => "PrayersForIllumination"@,
            ArtifactSetName::PrayersForDestiny => "PrayersForDestiny"@,
            ArtifactSetName::PaleFlame => "PaleFlame"@,
            ArtifactSetName::TenacityOfTheMillelith => "TenacityOfTheMillelith"@,
            ArtifactSetName::EmblemOfSeveredFate => "EmblemOfSeveredFate"@,
            ArtifactSetName::ShimenawaReminiscence => "ShimenawaReminiscence"@,
            ArtifactSetName::HuskOfOpulentDreams => "HuskOfOpulentDreams"@,
            ArtifactSetName::OceanHuedClam => "OceanHuedClam"@,
            ArtifactSetName::VermillionHereafter => "VermillionHereafter"@,
            ArtifactSetName::EchoesOfAnOffering => "EchoesOfAnOffering"@,
            ArtifactSetName::DeepwoodMemories => "DeepwoodMemories"@,
            ArtifactSetName::GildedDreams => "GildedDreams"@,
            ArtifactSetName::FlowerOfParadiseLost => "FlowerOfParadiseLost"@,
            ArtifactSetName::DesertPavilionChronicle => "DesertPavilionChronicle"@,
            ArtifactSetName::NymphsDream => "NymphsDream"@,
            ArtifactSetName::VourukashasGlow => "VourukashasGlow"@,
            ArtifactSetName::MarechausseeHunter => "MarechausseeHunter"@,
            ArtifactSetName::GoldenTroupe => "GoldenTroupe"@,
            ArtifactSetName::SongOfDaysPast => "SongOfDaysPast"@,
            ArtifactSetName::NighttimeWhispersInTheEchoingWoods => "NighttimeWhispersInTheEchoingWoods"@,
            ArtifactSetName::FragmentOfHarmonicWhimsy => "FragmentOfHarmonicWhimsy"@,
            ArtifactSetName::UnfinishedReverie => "UnfinishedReverie"@,
            ArtifactSetName::ScrollOfTheHeroOfCinderCity => "ScrollOfTheHeroOfCinderCity"@,
            ArtifactSetName::ObsidianCodex => "ObsidianCodex"@,
            ArtifactSetName::LongNightsOath => "LongNightsOath"@,
            ArtifactSetName::FinaleOfTheDeepGalleries => "FinaleOfTheDeepGalleries"@,
        }
    }

    /// The set's name.
    pub fn name(self) -> (text: &'static str)
        ensures
            text@ == self.name_text(),
    {
        match self {
            ArtifactSetName::ArchaicPetra => "ArchaicPetra",
            ArtifactSetName::HeartOfDepth => "HeartOfDepth",
            ArtifactSetName::BlizzardStrayer => "BlizzardStrayer",
            ArtifactSetName::RetracingBolide => "RetracingBolide",
            ArtifactSetName::NoblesseOblige => "NoblesseOblige",
            ArtifactSetName::GladiatorFinale => "GladiatorFinale",
            ArtifactSetName::MaidenBeloved => "MaidenBeloved",
            ArtifactSetName::ViridescentVenerer => "ViridescentVenerer",
            ArtifactSetName::LavaWalker => "LavaWalker",
            ArtifactSetName::CrimsonWitch => "CrimsonWitch",
            ArtifactSetName::ThunderSmoother => "ThunderSmoother",
            ArtifactSetName::ThunderingFury => "ThunderingFury",
            ArtifactSetName::BloodstainedChivalry => "BloodstainedChivalry",
            ArtifactSetName::WandererTroupe => "WandererTroupe",
            ArtifactSetName::Scholar => "Scholar",
            ArtifactSetName::Gambler => "Gambler",
            ArtifactSetName::TinyMiracle => "TinyMiracle",
            ArtifactSetName::MartialArtist => "MartialArtist",
            ArtifactSetName::BraveHeart => "BraveHeart",
            ArtifactSetName::ResolutionOfSojourner => "ResolutionOfSojourner",
            ArtifactSetName::DefenderWill => "DefenderWill",
            ArtifactSetName::Berserker => "Berserker",
            ArtifactSetName::Instructor => "Instructor",
            ArtifactSetName::Exile => "Exile",
            ArtifactSetName::Adventurer => "Adventurer",
            ArtifactSetName::LuckyDog => "LuckyDog",
            ArtifactSetName::TravelingDoctor => "TravelingDoctor",
            ArtifactSetName::PrayersForWisdom => "PrayersForWisdom",
            ArtifactSetName::PrayersToSpringtime => "PrayersToSpringtime",
            ArtifactSetName::PrayersForIllumination => "PrayersForIllumination",
            ArtifactSetName::PrayersForDestiny => "PrayersForDestiny",
            ArtifactSetName::PaleFlame => "PaleFlame",
            ArtifactSetName::TenacityOfTheMillelith => "TenacityOfTheMillelith",
            ArtifactSetName::EmblemOfSeveredFate => "EmblemOfSeveredFate",
            ArtifactSetName::ShimenawaReminiscence => "ShimenawaReminiscence",
            ArtifactSetName::HuskOfOpulentDreams => "HuskOfOpulentDreams",
            ArtifactSetName::OceanHuedClam => "OceanHuedClam",
            ArtifactSetName::VermillionHereafter => "VermillionHereafter",
            ArtifactSetName::EchoesOfAnOffering => "EchoesOfAnOffering",
            ArtifactSetName::DeepwoodMemories => "DeepwoodMemories",
            ArtifactSetName::GildedDreams => "GildedDreams",
            ArtifactSetName::FlowerOfParadiseLost => "FlowerOfParadiseLost",
            ArtifactSetName::DesertPavilionChronicle => "DesertPavilionChronicle",
            ArtifactSetName::NymphsDream => "NymphsDream",
            ArtifactSetName::VourukashasGlow => "VourukashasGlow",
            ArtifactSetName::MarechausseeHunter => "MarechausseeHunter",
            ArtifactSetName::GoldenTroupe => "GoldenTroupe",
            ArtifactSetName::SongOfDaysPast => "SongOfDaysPast",
            ArtifactSetName::NighttimeWhispersInTheEchoingWoods => "NighttimeWhispersInTheEchoingWoods",
            ArtifactSetName::FragmentOfHarmonicWhimsy => "FragmentOfHarmonicWhimsy",
            ArtifactSetName::UnfinishedReverie => "UnfinishedReverie",
            ArtifactSetName::ScrollOfTheHeroOfCinderCity => "ScrollOfTheHeroOfCinderCity",
            ArtifactSetName::ObsidianCodex => "ObsidianCodex",
            ArtifactSetName::LongNightsOath => "LongNightsOath",
            ArtifactSetName::FinaleOfTheDeepGalleries => "FinaleOfTheDeepGalleries",
        }
    }
}

} // verus!
