use vstd::prelude::*;

use crate::artifact::artifact::{ArtifactSetName, ArtifactSlot, ArtifactStatName};
use crate::utils::text::str_eq;

verus! {

impl ArtifactStatName {
    /// The key of the stat in the exchange format.
    pub open spec fn good_key(self) -> Seq<char> {
        match self {
            ArtifactStatName::HealingBonus => "heal_"@,
            ArtifactStatName::CriticalDamage => "critDMG_"@,
            ArtifactStatName::Critical => "critRate_"@,
            ArtifactStatName::Atk => "atk"@,
            ArtifactStatName::AtkPercentage => "atk_"@,
            ArtifactStatName::ElementalMastery => "eleMas"@,
            ArtifactStatName::Recharge => "enerRech_"@,
            ArtifactStatName::HpPercentage => "hp_"@,
            ArtifactStatName::Hp => "hp"@,
            ArtifactStatName::DefPercentage => "def_"@,
            ArtifactStatName::Def => "def"@,
            ArtifactStatName::ElectroBonus => "electro_dmg_"@,
            ArtifactStatName::PyroBonus => "pyro_dmg_"@,
            ArtifactStatName::HydroBonus => "hydro_dmg_"@,
            ArtifactStatName::CryoBonus => "cryo_dmg_"@,
            ArtifactStatName::AnemoBonus => "anemo_dmg_"@,
            ArtifactStatName::GeoBonus => "geo_dmg_"@,
            ArtifactStatName::PhysicalBonus => "physical_dmg_"@,
            ArtifactStatName::DendroBonus => "dendro_dmg_"@,
        }
    }

    /// The key of the stat in the exchange format.
    pub fn to_good(&self) -> (key: &'static str)
        ensures
            key@ == self.good_key(),
    {
        match self {
            ArtifactStatName::HealingBonus => "heal_",
            ArtifactStatName::CriticalDamage => "critDMG_",
            ArtifactStatName::Critical => "critRate_",
            ArtifactStatName::Atk => "atk",
            ArtifactStatName::AtkPercentage => "atk_",
            ArtifactStatName::ElementalMastery => "eleMas",
            ArtifactStatName::Recharge => "enerRech_",
            ArtifactStatName::HpPercentage => "hp_",
            ArtifactStatName::Hp => "hp",
            ArtifactStatName::DefPercentage => "def_",
            ArtifactStatName::Def => "def",
            ArtifactStatName::ElectroBonus => "electro_dmg_",
            ArtifactStatName::PyroBonus => "pyro_dmg_",
            ArtifactStatName::HydroBonus => "hydro_dmg_",
            ArtifactStatName::CryoBonus => "cryo_dmg_",
            ArtifactStatName::AnemoBonus => "anemo_dmg_",
            ArtifactStatName::GeoBonus => "geo_dmg_",
            ArtifactStatName::PhysicalBonus => "physical_dmg_",
            ArtifactStatName::DendroBonus => "dendro_dmg_",
        }
    }
}

impl ArtifactSlot {
    /// The key of the slot in the exchange format.
    pub open spec fn good_key(self) -> Seq<char> {
        match self {
            ArtifactSlot::Flower => "flower"@,
            ArtifactSlot::Feather => "plume"@,
            ArtifactSlot::Sand => "sands"@,
            ArtifactSlot::Goblet => "goblet"@,
            ArtifactSlot::Head => "circlet"@,
        }
    }

    /// The key of the slot in the exchange format.
    pub fn to_good(&self) -> (key: &'static str)
        ensures
            key@ == self.good_key(),
    {
        match self {
            ArtifactSlot::Flower => "flower",
            ArtifactSlot::Feather => "plume",
            ArtifactSlot::Sand => "sands",
            ArtifactSlot::Goblet => "goblet",
            ArtifactSlot::Head => "circlet",
        }
    }
}

impl ArtifactSetName {
    /// The key of the set in the exchange format.
    pub open spec fn good_key(self) -> Seq<char> {
        match self {
            ArtifactSetName::ArchaicPetra => "ArchaicPetra"@,
            ArtifactSetName::HeartOfDepth => "HeartOfDepth"@,
            ArtifactSetName::BlizzardStrayer => "BlizzardStrayer"@,
            ArtifactSetName::RetracingBolide => "RetracingBolide"@,
            ArtifactSetName::NoblesseOblige => "NoblesseOblige"@,
            ArtifactSetName::GladiatorFinale => "GladiatorsFinale"@,
            ArtifactSetName::MaidenBeloved => "MaidenBeloved"@,
            ArtifactSetName::ViridescentVenerer => "ViridescentVenerer"@,
            ArtifactSetName::LavaWalker => "Lavawalker"@,
            ArtifactSetName::CrimsonWitch => "CrimsonWitchOfFlames"@,
            ArtifactSetName::ThunderSmoother => "Thundersoother"@,
            ArtifactSetName::ThunderingFury => "ThunderingFury"@,
            ArtifactSetName::BloodstainedChivalry => "BloodstainedChivalry"@,
            ArtifactSetName::WandererTroupe => "WanderersTroupe"@,
            ArtifactSetName::Scholar => "Scholar"@,
            ArtifactSetName::Gambler => "Gambler"@,
            ArtifactSetName::TinyMiracle => "TinyMiracle"@,
            ArtifactSetName::MartialArtist => "MartialArtist"@,
            ArtifactSetName::BraveHeart => "BraveHeart"@,
            ArtifactSetName::ResolutionOfSojourner => "ResolutionOfSojourner"@,
            ArtifactSetName::DefenderWill => "DefendersWill"@,
            ArtifactSetName::Berserker => "Berserker"@,
            ArtifactSetName::Instructor => "Instructor"@,
            ArtifactSetName::Exile => "TheExile"@,
            ArtifactSetName::Adventurer => "Adventurer"@,
            ArtifactSetName::LuckyDog => "LuckyDog"@,
            ArtifactSetName::TravelingDoctor => "TravelingDoctor"@,
            ArtifactSetName::PrayersForWisdom => "PrayersForWisdom"@,
            ArtifactSetName::PrayersToSpringtime => "PrayersToSpringtime"@,
            ArtifactSetName::PrayersForIllumination => "PrayersForIllumination"@,
            ArtifactSetName::PrayersForDestiny => "PrayersForDestiny"@,
            ArtifactSetName::PaleFlame => "PaleFlame"@,
            ArtifactSetName::TenacityOfTheMillelith => "TenacityOfTheMillelith"@,
            ArtifactSetName::EmblemOfSeveredFate => "EmblemOfSeveredFate"@,
            ArtifactSetName::ShimenawaReminiscence => "ShimenawasReminiscence"@,
            ArtifactSetName::HuskOfOpulentDreams => "HuskOfOpulentDreams"@,
            ArtifactSetName::OceanHuedClam => "OceanHuedClam"@,
            ArtifactSetName::VermillionHereafter => "VermillionHereafter"@,
            ArtifactSetName::EchoesOfAnOffering => "EchoesOfAnOffering"@,
            ArtifactSetName::DeepwoodMemories => "DeepwoodMemories"@,
            ArtifactSetName::GildedDreams => "GildedDreams"@,
            ArtifactSetName::FlowerOfParadiseLost => "FlowerOfParadiseLost"@,
            ArtifactSetName::DesertPavilionChronicle => "DesertPavilionChronicle"@,
            ArtifactSetName::NymphsDream => "NymphsDream"@,
            ArtifactSetName::VourukashasGlow => "VourukashasGlow"@,
            ArtifactSetName::MarechausseeHunter => "MarechausseeHunter"@,
            ArtifactSetName::GoldenTroupe => "GoldenTroupe"@,
            ArtifactSetName::SongOfDaysPast => "SongOfDaysPast"@,
            ArtifactSetName::NighttimeWhispersInTheEchoingWoods => "NighttimeWhispersInTheEchoingWoods"@,
            ArtifactSetName::FragmentOfHarmonicWhimsy => "FragmentOfHarmonicWhimsy"@,
            ArtifactSetName::UnfinishedReverie => "UnfinishedReverie"@,
            ArtifactSetName::ScrollOfTheHeroOfCinderCity => "ScrollOfTheHeroOfCinderCity"@,
            ArtifactSetName::ObsidianCodex => "ObsidianCodex"@,
            ArtifactSetName::LongNightsOath => "LongNightsOath"@,
            ArtifactSetName::FinaleOfTheDeepGalleries => "FinaleOfTheDeepGalleries"@,
        }
    }

    /// The key of the set in the exchange format.
    pub fn to_good(&self) -> (key: &'static str)
        ensures
            key@ == self.good_key(),
    {
        match self {
            ArtifactSetName::ArchaicPetra => "ArchaicPetra",
            ArtifactSetName::HeartOfDepth => "HeartOfDepth",
            ArtifactSetName::BlizzardStrayer => "BlizzardStrayer",
            ArtifactSetName::RetracingBolide => "RetracingBolide",
            ArtifactSetName::NoblesseOblige => "NoblesseOblige",
            ArtifactSetName::GladiatorFinale => "GladiatorsFinale",
            ArtifactSetName::MaidenBeloved => "MaidenBeloved",
            ArtifactSetName::ViridescentVenerer => "ViridescentVenerer",
            ArtifactSetName::LavaWalker => "Lavawalker",
            ArtifactSetName::CrimsonWitch => "CrimsonWitchOfFlames",
            ArtifactSetName::ThunderSmoother => "Thundersoother",
            ArtifactSetName::ThunderingFury => "ThunderingFury",
            ArtifactSetName::BloodstainedChivalry => "BloodstainedChivalry",
            ArtifactSetName::WandererTroupe => "WanderersTroupe",
            ArtifactSetName::Scholar => "Scholar",
            ArtifactSetName::Gambler => "Gambler",
            ArtifactSetName::TinyMiracle => "TinyMiracle",
            ArtifactSetName::MartialArtist => "MartialArtist",
            ArtifactSetName::BraveHeart => "BraveHeart",
            ArtifactSetName::ResolutionOfSojourner => "ResolutionOfSojourner",
            ArtifactSetName::DefenderWill => "DefendersWill",
            ArtifactSetName::Berserker => "Berserker",
            ArtifactSetName::Instructor => "Instructor",
            ArtifactSetName::Exile => "TheExile",
            ArtifactSetName::Adventurer => "Adventurer",
            ArtifactSetName::LuckyDog => "LuckyDog",
            ArtifactSetName::TravelingDoctor => "TravelingDoctor",
            ArtifactSetName::PrayersForWisdom => "PrayersForWisdom",
            ArtifactSetName::PrayersToSpringtime => "PrayersToSpringtime",
            ArtifactSetName::PrayersForIllumination => "PrayersForIllumination",
            ArtifactSetName::PrayersForDestiny => "PrayersForDestiny",
            ArtifactSetName::PaleFlame => "PaleFlame",
            ArtifactSetName::TenacityOfTheMillelith => "TenacityOfTheMillelith",
            ArtifactSetName::EmblemOfSeveredFate => "EmblemOfSeveredFate",
            ArtifactSetName::ShimenawaReminiscence => "ShimenawasReminiscence",
            ArtifactSetName::HuskOfOpulentDreams => "HuskOfOpulentDreams",
            ArtifactSetName::OceanHuedClam => "OceanHuedClam",
            ArtifactSetName::VermillionHereafter => "VermillionHereafter",
            ArtifactSetName::EchoesOfAnOffering => "EchoesOfAnOffering",
            ArtifactSetName::DeepwoodMemories => "DeepwoodMemories",
            ArtifactSetName::GildedDreams => "GildedDreams",
            ArtifactSetName::FlowerOfParadiseLost => "FlowerOfParadiseLost",
            ArtifactSetName::DesertPavilionChronicle => "DesertPavilionChronicle",
            ArtifactSetName::NymphsDream => "NymphsDream",
            ArtifactSetName::VourukashasGlow => "VourukashasGlow",
            ArtifactSetName::MarechausseeHunter => "MarechausseeHunter",
            ArtifactSetName::GoldenTroupe => "GoldenTroupe",
            ArtifactSetName::SongOfDaysPast => "SongOfDaysPast",
            ArtifactSetName::NighttimeWhispersInTheEchoingWoods => "NighttimeWhispersInTheEchoingWoods",
            ArtifactSetName::FragmentOfHarmonicWhimsy => "FragmentOfHarmonicWhimsy",
            ArtifactSetName::UnfinishedReverie => "UnfinishedReverie",
            ArtifactSetName::ScrollOfTheHeroOfCinderCity => "ScrollOfTheHeroOfCinderCity",
            ArtifactSetName::ObsidianCodex => "ObsidianCodex",
            ArtifactSetName::LongNightsOath => "LongNightsOath",
            ArtifactSetName::FinaleOfTheDeepGalleries => "FinaleOfTheDeepGalleries",
        }
    }
}

/// The key of a character in the exchange format: empty for no character
/// and for one that is not known.
pub open spec fn equip_key(equip: Option<Seq<char>>) -> Seq<char> {
    match equip {
        None => Seq::empty(),
        Some(name) => character_key(name),
    }
}

/// The key of the character of the name `name`: empty for one that is not
/// known.
pub open spec fn character_key(name: Seq<char>) -> Seq<char> {
    if name == "迪卢克"@ {
        "Diluc"@
    }     else if name == "可莉"@ {
        "Klee"@
    }     else if name == "胡桃"@ {
        "HuTao"@
    }     else if name == "宵宫"@ {
        "Yoimiya"@
    }     else if name == "安柏"@ {
        "Amber"@
    }     else if name == "班尼特"@ {
        "Bennett"@
    }     else if name == "香菱"@ {
        "Xiangling"@
    }     else if name == "辛焱"@ {
        "Xinyan"@
    }     else if name == "烟绯"@ {
        "Yanfei"@
    }     else if name == "托马"@ {
        "Thoma"@
    }     else if name == "迪希雅"@ {
        "Dehya"@
    }     else if name == "林尼"@ {
        "Lyney"@
    }     else if name == "夏沃蕾"@ {
        "Chevreuse"@
    }     else if name == "嘉明"@ {
        "Gaming"@
    }     else if name == "阿蕾奇诺"@ {
        "Arlecchino"@
    }     else if name == "玛薇卡"@ {
        "Mavuika"@
    }     else if name == "莫娜"@ {
        "Mona"@
    }     else if name == "达达利亚"@ {
        "Tartaglia"@
    }     else if name == "珊瑚宫心海"@ {
        "SangonomiyaKokomi"@
    }     else if name == "神里绫人"@ {
        "KamisatoAyato"@
    }     else if name == "夜兰"@ {
        "Yelan"@
    }     else if name == "妮露"@ {
        "Nilou"@
    }     else if name == "芭芭拉"@ {
        "Barbara"@
    }     else if name == "行秋"@ {
        "Xingqiu"@
    }     else if name == "坎蒂丝"@ {
        "Candace"@
    }     else if name == "芙宁娜"@ {
        "Furina"@
    }     else if name == "那维莱特"@ {
        "Neuvillette"@
    }     else if name == "希格雯"@ {
        "Sigewinne"@
    }     else if name == "玛拉妮"@ {
        "Mualani"@
    }     else if name == "塔利雅"@ {
        "Dahlia"@
    }     else if name == "刻晴"@ {
        "Keqing"@
    }     else if name == "雷电将军"@ {
        "RaidenShogun"@
    }     else if name == "八重神子"@ {
        "YaeMiko"@
    }     else if name == "赛诺"@ {
        "Cyno"@
    }     else if name == "北斗"@ {
        "Beidou"@
    }     else if name == "丽莎"@ {
        "Lisa"@
    }     else if name == "雷泽"@ {
        "Razor"@
    }     else if name == "菲谢尔"@ {
        "Fischl"@
    }     else if name == "九条裟罗"@ {
        "KujouSara"@
    }     else if name == "久岐忍"@ {
        "KukiShinobu"@
    }     else if name == "多莉"@ {
        "Dori"@
    }     else if name == "赛索斯"@ {
        "Sethos"@
    }     else if name == "克洛琳德"@ {
        "Clorinde"@
    }     else if name == "欧洛伦"@ {
        "Ororon"@
    }     else if name == "伊安珊"@ {
        "Iansan"@
    }     else if name == "瓦雷莎"@ {
        "Varesa"@
    }     else if name == "七七"@ {
        "Qiqi"@
    }     else if name == "甘雨"@ {
        "Ganyu"@
    }     else if name == "神里绫华"@ {
        "KamisatoAyaka"@
    }     else if name == "优菈"@ {
        "Eula"@
    }     else if name == "埃洛伊"@ {
        "Aloy"@
    }     else if name == "申鹤"@ {
        "Shenhe"@
    }     else if name == "凯亚"@ {
        "Kaeya"@
    }     else if name == "重云"@ {
        "Chongyun"@
    }     else if name == "迪奥娜"@ {
        "Diona"@
    }     else if name == "罗莎莉亚"@ {
        "Rosaria"@
    }     else if name == "莱依拉"@ {
        "Layla"@
    }     else if name == "米卡"@ {
        "Mika"@
    }     else if name == "菲米尼"@ {
        "Freminet"@
    }     else if name == "娜维娅"@ {
        "Navia"@
    }     else if name == "莱欧斯利"@ {
        "Wriothesley"@
    }     else if name == "夏洛蒂"@ {
        "Charlotte"@
    }     else if name == "茜特菈莉"@ {
        "Citlali"@
    }     else if name == "爱可菲"@ {
        "Escoffier"@
    }     else if name == "斯柯克"@ {
        "Skirk"@
    }     else if name == "琴"@ {
        "Jean"@
    }     else if name == "温迪"@ {
        "Venti"@
    }     else if name == "魈"@ {
        "Xiao"@
    }     else if name == "旅行者"@ {
        "Traveler"@
    }     else if name == "枫原万叶"@ {
        "KaedeharaKazuha"@
    }     else if name == "流浪者"@ {
        "Wanderer"@
    }     else if name == "砂糖"@ {
        "Sucrose"@
    }     else if name == "早柚"@ {
        "Sayu"@
    }     else if name == "鹿野院平藏"@ {
        "ShikanoinHeizou"@
    }     else if name == "珐露珊"@ {
        "Faruzan"@
    }     else if name == "琳妮特"@ {
        "Lynette"@
    }     else if name == "闲云"@ {
        "Xianyun"@
    }     else if name == "恰斯卡"@ {
        "Chasca"@
    }     else if name == "蓝砚"@ {
        "LanYan"@
    }     else if name == "梦见月瑞希"@ {
        "YumemizukiMizuki"@
    }     else if name == "伊法"@ {
        "Ifa"@
    }     else if name == "钟离"@ {
        "Zhongli"@
    }     else if name == "阿贝多"@ {
        "Albedo"@
    }     else if name == "荒泷一斗"@ {
        "AratakiItto"@
    }     else if name == "诺艾尔"@ {
        "Noelle"@
    }     else if name == "凝光"@ {
        "Ningguang"@
    }     else if name == "云堇"@ {
        "YunJin"@
    }     else if name == "五郎"@ {
        "Gorou"@
    }     else if name == "千织"@ {
        "Chiori"@
    }     else if name == "卡齐娜"@ {
        "Kachina"@
    }     else if name == "希诺宁"@ {
        "Xilonen"@
    }     else if name == "提纳里"@ {
        "Tighnari"@
    }     else if name == "纳西妲"@ {
        "Nahida"@
    }     else if name == "柯莱"@ {
        "Collei"@
    }     else if name == "白术"@ {
        "Baizhu"@
    }     else if name == "卡维"@ {
        "Kaveh"@
    }     else if name == "瑶瑶"@ {
        "Yaoyao"@
    }     else if name == "艾尔海森"@ {
        "Alhaitham"@
    }     else if name == "绮良良"@ {
        "Kirara"@
    }     else if name == "艾梅莉埃"@ {
        "Emilie"@
    }     else if name == "基尼奇"@ {
        "Kinich"@
    } else {
        Seq::empty()
    }
}

/// The key of a character in the exchange format.
pub fn equip_from_zh_cn(equip: Option<&str>) -> (key: &'static str)
    ensures
        key@ == equip_key(
            match equip {
                Some(name) => Some(name@),
                None => None,
            },
        ),
{
    proof {
        reveal_strlit("");
    }
    let name = match equip {
        Some(name) => name,
        None => {
            return "";
        },
    };
    if str_eq(name, "迪卢克") {
        return "Diluc";
    }
    if str_eq(name, "可莉") {
        return "Klee";
    }
    if str_eq(name, "胡桃") {
        return "HuTao";
    }
    if str_eq(name, "宵宫") {
        return "Yoimiya";
    }
    if str_eq(name, "安柏") {
        return "Amber";
    }
    if str_eq(name, "班尼特") {
        return "Bennett";
    }
    if str_eq(name, "香菱") {
        return "Xiangling";
    }
    if str_eq(name, "辛焱") {
        return "Xinyan";
    }
    if str_eq(name, "烟绯") {
        return "Yanfei";
    }
    if str_eq(name, "托马") {
        return "Thoma";
    }
    if str_eq(name, "迪希雅") {
        return "Dehya";
    }
    if str_eq(name, "林尼") {
        return "Lyney";
    }
    if str_eq(name, "夏沃蕾") {
        return "Chevreuse";
    }
    if str_eq(name, "嘉明") {
        return "Gaming";
    }
    if str_eq(name, "阿蕾奇诺") {
        return "Arlecchino";
    }
    if str_eq(name, "玛薇卡") {
        return "Mavuika";
    }
    if str_eq(name, "莫娜") {
        return "Mona";
    }
    if str_eq(name, "达达利亚") {
        return "Tartaglia";
    }
    if str_eq(name, "珊瑚宫心海") {
        return "SangonomiyaKokomi";
    }
    if str_eq(name, "神里绫人") {
        return "KamisatoAyato";
    }
    if str_eq(name, "夜兰") {
        return "Yelan";
    }
    if str_eq(name, "妮露") {
        return "Nilou";
    }
    if str_eq(name, "芭芭拉") {
        return "Barbara";
    }
    if str_eq(name, "行秋") {
        return "Xingqiu";
    }
    if str_eq(name, "坎蒂丝") {
        return "Candace";
    }
    if str_eq(name, "芙宁娜") {
        return "Furina";
    }
    if str_eq(name, "那维莱特") {
        return "Neuvillette";
    }
    if str_eq(name, "希格雯") {
        return "Sigewinne";
    }
    if str_eq(name, "玛拉妮") {
        return "Mualani";
    }
    if str_eq(name, "塔利雅") {
        return "Dahlia";
    }
    if str_eq(name, "刻晴") {
        return "Keqing";
    }
    if str_eq(name, "雷电将军") {
        return "RaidenShogun";
    }
    if str_eq(name, "八重神子") {
        return "YaeMiko";
    }
    if str_eq(name, "赛诺") {
        return "Cyno";
    }
    if str_eq(name, "北斗") {
        return "Beidou";
    }
    if str_eq(name, "丽莎") {
        return "Lisa";
    }
    if str_eq(name, "雷泽") {
        return "Razor";
    }
    if str_eq(name, "菲谢尔") {
        return "Fischl";
    }
    if str_eq(name, "九条裟罗") {
        return "KujouSara";
    }
    if str_eq(name, "久岐忍") {
        return "KukiShinobu";
    }
    if str_eq(name, "多莉") {
        return "Dori";
    }
    if str_eq(name, "赛索斯") {
        return "Sethos";
    }
    if str_eq(name, "克洛琳德") {
        return "Clorinde";
    }
    if str_eq(name, "欧洛伦") {
        return "Ororon";
    }
    if str_eq(name, "伊安珊") {
        return "Iansan";
    }
    if str_eq(name, "瓦雷莎") {
        return "Varesa";
    }
    if str_eq(name, "七七") {
        return "Qiqi";
    }
    if str_eq(name, "甘雨") {
        return "Ganyu";
    }
    if str_eq(name, "神里绫华") {
        return "KamisatoAyaka";
    }
    if str_eq(name, "优菈") {
        return "Eula";
    }
    if str_eq(name, "埃洛伊") {
        return "Aloy";
    }
    if str_eq(name, "申鹤") {
        return "Shenhe";
    }
    if str_eq(name, "凯亚") {
        return "Kaeya";
    }
    if str_eq(name, "重云") {
        return "Chongyun";
    }
    if str_eq(name, "迪奥娜") {
        return "Diona";
    }
    if str_eq(name, "罗莎莉亚") {
        return "Rosaria";
    }
    if str_eq(name, "莱依拉") {
        return "Layla";
    }
    if str_eq(name, "米卡") {
        return "Mika";
    }
    if str_eq(name, "菲米尼") {
        return "Freminet";
    }
    if str_eq(name, "娜维娅") {
        return "Navia";
    }
    if str_eq(name, "莱欧斯利") {
        return "Wriothesley";
    }
    if str_eq(name, "夏洛蒂") {
        return "Charlotte";
    }
    if str_eq(name, "茜特菈莉") {
        return "Citlali";
    }
    if str_eq(name, "爱可菲") {
        return "Escoffier";
    }
    if str_eq(name, "斯柯克") {
        return "Skirk";
    }
    if str_eq(name, "琴") {
        return "Jean";
    }
    if str_eq(name, "温迪") {
        return "Venti";
    }
    if str_eq(name, "魈") {
        return "Xiao";
    }
    if str_eq(name, "旅行者") {
        return "Traveler";
    }
    if str_eq(name, "枫原万叶") {
        return "KaedeharaKazuha";
    }
    if str_eq(name, "流浪者") {
        return "Wanderer";
    }
    if str_eq(name, "砂糖") {
        return "Sucrose";
    }
    if str_eq(name, "早柚") {
        return "Sayu";
    }
    if str_eq(name, "鹿野院平藏") {
        return "ShikanoinHeizou";
    }
    if str_eq(name, "珐露珊") {
        return "Faruzan";
    }
    if str_eq(name, "琳妮特") {
        return "Lynette";
    }
    if str_eq(name, "闲云") {
        return "Xianyun";
    }
    if str_eq(name, "恰斯卡") {
        return "Chasca";
    }
    if str_eq(name, "蓝砚") {
        return "LanYan";
    }
    if str_eq(name, "梦见月瑞希") {
        return "YumemizukiMizuki";
    }
    if str_eq(name, "伊法") {
        return "Ifa";
    }
    if str_eq(name, "钟离") {
        return "Zhongli";
    }
    if str_eq(name, "阿贝多") {
        return "Albedo";
    }
    if str_eq(name, "荒泷一斗") {
        return "AratakiItto";
    }
    if str_eq(name, "诺艾尔") {
        return "Noelle";
    }
    if str_eq(name, "凝光") {
        return "Ningguang";
    }
    if str_eq(name, "云堇") {
        return "YunJin";
    }
    if str_eq(name, "五郎") {
        return "Gorou";
    }
    if str_eq(name, "千织") {
        return "Chiori";
    }
    if str_eq(name, "卡齐娜") {
        return "Kachina";
    }
    if str_eq(name, "希诺宁") {
        return "Xilonen";
    }
    if str_eq(name, "提纳里") {
        return "Tighnari";
    }
    if str_eq(name, "纳西妲") {
        return "Nahida";
    }
    if str_eq(name, "柯莱") {
        return "Collei";
    }
    if str_eq(name, "白术") {
        return "Baizhu";
    }
    if str_eq(name, "卡维") {
        return "Kaveh";
    }
    if str_eq(name, "瑶瑶") {
        return "Yaoyao";
    }
    if str_eq(name, "艾尔海森") {
        return "Alhaitham";
    }
    if str_eq(name, "绮良良") {
        return "Kirara";
    }
    if str_eq(name, "艾梅莉埃") {
        return "Emilie";
    }
    if str_eq(name, "基尼奇") {
        return "Kinich";
    }
    ""
}

} // verus!
