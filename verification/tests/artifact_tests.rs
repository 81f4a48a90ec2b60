use furina::artifact::{ArtifactSetName, ArtifactSlot, ArtifactStatName};
use furina::character::character_names::{equipped_character, is_known_character};
use furina::export::good::equip_from_zh_cn;

#[test]
fn test_artifact_stat_name_from_zh_cn() {
    assert_eq!(
        ArtifactStatName::from_zh_cn("攻击力", true),
        Some(ArtifactStatName::AtkPercentage)
    );
    assert_eq!(ArtifactStatName::from_zh_cn("生命值", true), Some(ArtifactStatName::HpPercentage));
    assert_eq!(
        ArtifactStatName::from_zh_cn("防御力", true),
        Some(ArtifactStatName::DefPercentage)
    );

    assert_eq!(ArtifactStatName::from_zh_cn("攻击力", false), Some(ArtifactStatName::Atk));
    assert_eq!(ArtifactStatName::from_zh_cn("生命值", false), Some(ArtifactStatName::Hp));
    assert_eq!(ArtifactStatName::from_zh_cn("防御力", false), Some(ArtifactStatName::Def));

    assert_eq!(ArtifactStatName::from_zh_cn("暴击率", false), Some(ArtifactStatName::Critical));
    assert_eq!(
        ArtifactStatName::from_zh_cn("暴击伤害", false),
        Some(ArtifactStatName::CriticalDamage)
    );
    assert_eq!(
        ArtifactStatName::from_zh_cn("元素精通", false),
        Some(ArtifactStatName::ElementalMastery)
    );
    assert_eq!(
        ArtifactStatName::from_zh_cn("元素充能效率", false),
        Some(ArtifactStatName::Recharge)
    );

    assert_eq!(
        ArtifactStatName::from_zh_cn("火元素伤害加成", false),
        Some(ArtifactStatName::PyroBonus)
    );
    assert_eq!(
        ArtifactStatName::from_zh_cn("水元素伤害加成", false),
        Some(ArtifactStatName::HydroBonus)
    );
    assert_eq!(
        ArtifactStatName::from_zh_cn("雷元素伤害加成", false),
        Some(ArtifactStatName::ElectroBonus)
    );

    assert_eq!(ArtifactStatName::from_zh_cn("无效属性", false), None);
}

#[test]
fn test_artifact_set_name_from_zh_cn() {
    assert_eq!(ArtifactSetName::from_zh_cn("魔女的炎之花"), Some(ArtifactSetName::CrimsonWitch));
    assert_eq!(
        ArtifactSetName::from_zh_cn("野花记忆的绿野"),
        Some(ArtifactSetName::ViridescentVenerer)
    );
    assert_eq!(
        ArtifactSetName::from_zh_cn("明威之镡"),
        Some(ArtifactSetName::EmblemOfSeveredFate)
    );
    assert_eq!(ArtifactSetName::from_zh_cn("饰金胸花"), Some(ArtifactSetName::HeartOfDepth));

    assert_eq!(
        ArtifactSetName::from_zh_cn("黄金乐曲的变奏"),
        Some(ArtifactSetName::GoldenTroupe)
    );
    assert_eq!(
        ArtifactSetName::from_zh_cn("猎人的胸花"),
        Some(ArtifactSetName::MarechausseeHunter)
    );

    assert_eq!(ArtifactSetName::from_zh_cn("无效套装"), None);
}

#[test]
fn test_artifact_slot_from_zh_cn() {
    assert_eq!(ArtifactSlot::from_zh_cn("魔女的炎之花"), Some(ArtifactSlot::Flower));
    assert_eq!(ArtifactSlot::from_zh_cn("野花记忆的绿野"), Some(ArtifactSlot::Flower));

    assert_eq!(ArtifactSlot::from_zh_cn("魔女常燃之羽"), Some(ArtifactSlot::Feather));
    assert_eq!(ArtifactSlot::from_zh_cn("猎人青翠的箭羽"), Some(ArtifactSlot::Feather));

    assert_eq!(ArtifactSlot::from_zh_cn("魔女破灭之时"), Some(ArtifactSlot::Sand));
    assert_eq!(ArtifactSlot::from_zh_cn("翠绿猎人的笃定"), Some(ArtifactSlot::Sand));

    assert_eq!(ArtifactSlot::from_zh_cn("魔女的心之火"), Some(ArtifactSlot::Goblet));
    assert_eq!(ArtifactSlot::from_zh_cn("翠绿猎人的容器"), Some(ArtifactSlot::Goblet));

    assert_eq!(ArtifactSlot::from_zh_cn("焦灼的魔女帽"), Some(ArtifactSlot::Head));
    assert_eq!(ArtifactSlot::from_zh_cn("翠绿的猎人之冠"), Some(ArtifactSlot::Head));

    assert_eq!(ArtifactSlot::from_zh_cn("无效部位"), None);
}

#[test]
fn test_artifact_slot_display() {
    assert_eq!(ArtifactSlot::Flower.name(), "Flower");
    assert_eq!(ArtifactSlot::Feather.name(), "Feather");
    assert_eq!(ArtifactSlot::Sand.name(), "Sand");
    assert_eq!(ArtifactSlot::Goblet.name(), "Goblet");
    assert_eq!(ArtifactSlot::Head.name(), "Head");
}

#[test]
fn test_artifact_set_name_display() {
    assert_eq!(ArtifactSetName::CrimsonWitch.name(), "CrimsonWitch");
    assert_eq!(ArtifactSetName::ViridescentVenerer.name(), "ViridescentVenerer");
    assert_eq!(ArtifactSetName::EmblemOfSeveredFate.name(), "EmblemOfSeveredFate");
}

#[test]
fn test_artifact_stat_name_resolution() {
    let result = ArtifactStatName::from_zh_cn("暴击伤", true);
    assert!(result.is_some());
    assert_eq!(result.unwrap(), ArtifactStatName::CriticalDamage);

    let result = ArtifactStatName::from_zh_cn("暴击伤害", true);
    assert!(result.is_some());
    assert_eq!(result.unwrap(), ArtifactStatName::CriticalDamage);
}

#[test]
fn stat_names_are_written_as_their_variants() {
    assert_eq!(ArtifactStatName::Critical.name(), "Critical");
    assert_eq!(ArtifactStatName::AtkPercentage.name(), "AtkPercentage");
}

#[test]
fn prayer_circlets_are_heads_of_their_sets() {
    assert_eq!(ArtifactSlot::from_zh_cn("祭雷礼冠"), Some(ArtifactSlot::Head));
    assert_eq!(ArtifactSetName::from_zh_cn("祭雷礼冠"), Some(ArtifactSetName::PrayersForWisdom));
    assert_eq!(ArtifactSetName::from_zh_cn("祭水礼冠"), Some(ArtifactSetName::PrayersForDestiny));
}

#[test]
fn both_spellings_of_the_petra_sands_are_known() {
    assert_eq!(ArtifactSetName::from_zh_cn("星罗圭壁之晷"), Some(ArtifactSetName::ArchaicPetra));
    assert_eq!(ArtifactSetName::from_zh_cn("星罗圭璧之晷"), Some(ArtifactSetName::ArchaicPetra));
    assert_eq!(ArtifactSlot::from_zh_cn("星罗圭璧之晷"), Some(ArtifactSlot::Sand));
}

#[test]
fn exchange_keys_follow_the_format() {
    assert_eq!(ArtifactStatName::CriticalDamage.to_good(), "critDMG_");
    assert_eq!(ArtifactStatName::Critical.to_good(), "critRate_");
    assert_eq!(ArtifactStatName::Atk.to_good(), "atk");
    assert_eq!(ArtifactStatName::AtkPercentage.to_good(), "atk_");
    assert_eq!(ArtifactStatName::ElementalMastery.to_good(), "eleMas");
    assert_eq!(ArtifactStatName::DendroBonus.to_good(), "dendro_dmg_");
    assert_eq!(ArtifactSlot::Feather.to_good(), "plume");
    assert_eq!(ArtifactSlot::Sand.to_good(), "sands");
    assert_eq!(ArtifactSlot::Head.to_good(), "circlet");
    assert_eq!(ArtifactSetName::GladiatorFinale.to_good(), "GladiatorsFinale");
    assert_eq!(ArtifactSetName::CrimsonWitch.to_good(), "CrimsonWitchOfFlames");
    assert_eq!(ArtifactSetName::LavaWalker.to_good(), "Lavawalker");
}

#[test]
fn characters_have_exchange_keys() {
    assert_eq!(equip_from_zh_cn(Some("迪卢克")), "Diluc");
    assert_eq!(equip_from_zh_cn(Some("芙宁娜")), "Furina");
    assert_eq!(equip_from_zh_cn(Some("基尼奇")), "Kinich");
    assert_eq!(equip_from_zh_cn(Some("没有这个人")), "");
    assert_eq!(equip_from_zh_cn(None), "");
}

#[test]
fn equip_text_names_a_known_character() {
    assert!(is_known_character("安柏"));
    assert!(!is_known_character("安柏已装备"));
    assert_eq!(equipped_character("安柏已装备"), Some("安柏".to_string()));
    assert_eq!(equipped_character("无名氏已装备"), None);
    assert_eq!(equipped_character("安柏"), None);
    assert_eq!(equipped_character(""), None);
    assert_eq!(equipped_character("已装备"), None);
}

#[test]
fn test_artifact_stat_display() {
    assert_eq!(ArtifactStatName::Critical.name(), "Critical");
}
