use vstd::prelude::*;

use crate::artifact::artifact::ArtifactSetName;
use crate::utils::text::str_eq;

verus! {

/// Whether `name` is the name of a piece of this set.
pub open spec fn is_berserker_piece(name: Seq<char>) -> bool {
    ||| name == "战狂的蔷薇"@
    ||| name == "战狂的翎羽"@
    ||| name == "战狂的时计"@
    ||| name == "战狂的骨杯"@
    ||| name == "战狂的鬼面"@
}

fn is_berserker_piece_exec(name: &str) -> (found: bool)
    ensures
        found == is_berserker_piece(name@),
{
    if str_eq(name, "战狂的蔷薇") {
        return true;
    }
    if str_eq(name, "战狂的翎羽") {
        return true;
    }
    if str_eq(name, "战狂的时计") {
        return true;
    }
    if str_eq(name, "战狂的骨杯") {
        return true;
    }
    if str_eq(name, "战狂的鬼面") {
        return true;
    }
    false
}

/// Whether `name` is the name of a piece of this set.
pub open spec fn is_brave_heart_piece(name: Seq<char>) -> bool {
    ||| name == "勇士的勋章"@
    ||| name == "勇士的期许"@
    ||| name == "勇士的坚毅"@
    ||| name == "勇士的壮行"@
    ||| name == "勇士的冠冕"@
}

fn is_brave_heart_piece_exec(name: &str) -> (found: bool)
    ensures
        found == is_brave_heart_piece(name@),
{
    if str_eq(name, "勇士的勋章") {
        return true;
    }
    if str_eq(name, "勇士的期许") {
        return true;
    }
    if str_eq(name, "勇士的坚毅") {
        return true;
    }
    if str_eq(name, "勇士的壮行") {
        return true;
    }
    if str_eq(name, "勇士的冠冕") {
        return true;
    }
    false
}

/// Whether `name` is the name of a piece of this set.
pub open spec fn is_defender_will_piece(name: Seq<char>) -> bool {
    ||| name == "守护之花"@
    ||| name == "守护徽印"@
    ||| name == "守护座钟"@
    ||| name == "守护之皿"@
    ||| name == "守护束带"@
}

fn is_defender_will_piece_exec(name: &str) -> (found: bool)
    ensures
        found == is_defender_will_piece(name@),
{
    if str_eq(name, "守护之花") {
        return true;
    }
    if str_eq(name, "守护徽印") {
        return true;
    }
    if str_eq(name, "守护座钟") {
        return true;
    }
    if str_eq(name, "守护之皿") {
        return true;
    }
    if str_eq(name, "守护束带") {
        return true;
    }
    false
}

/// Whether `name` is the name of a piece of this set.
pub open spec fn is_exile_piece(name: Seq<char>) -> bool {
    ||| name == "流放者之花"@
    ||| name == "流放者之羽"@
    ||| name == "流放者怀表"@
    ||| name == "流放者之杯"@
    ||| name == "流放者头冠"@
}

fn is_exile_piece_exec(name: &str) -> (found: bool)
    ensures
        found == is_exile_piece(name@),
{
    if str_eq(name, "流放者之花") {
        return true;
    }
    if str_eq(name, "流放者之羽") {
        return true;
    }
    if str_eq(name, "流放者怀表") {
        return true;
    }
    if str_eq(name, "流放者之杯") {
        return true;
    }
    if str_eq(name, "流放者头冠") {
        return true;
    }
    false
}

/// Whether `name` is the name of a piece of this set.
pub open spec fn is_gambler_piece(name: Seq<char>) -> bool {
    ||| name == "赌徒的胸花"@
    ||| name == "赌徒的羽饰"@
    ||| name == "赌徒的怀表"@
    ||| name == "赌徒的骰盅"@
    ||| name == "赌徒的耳环"@
}

fn is_gambler_piece_exec(name: &str) -> (found: bool)
    ensures
        found == is_gambler_piece(name@),
{
    if str_eq(name, "赌徒的胸花") {
        return true;
    }
    if str_eq(name, "赌徒的羽饰") {
        return true;
    }
    if str_eq(name, "赌徒的怀表") {
        return true;
    }
    if str_eq(name, "赌徒的骰盅") {
        return true;
    }
    if str_eq(name, "赌徒的耳环") {
        return true;
    }
    false
}

/// Whether `name` is the name of a piece of this set.
pub open spec fn is_instructor_piece(name: Seq<char>) -> bool {
    ||| name == "教官的胸花"@
    ||| name == "教官的羽饰"@
    ||| name == "教官的怀表"@
    ||| name == "教官的茶杯"@
    ||| name == "教官的帽子"@
}

fn is_instructor_piece_exec(name: &str) -> (found: bool)
    ensures
        found == is_instructor_piece(name@),
{
    if str_eq(name, "教官的胸花") {
        return true;
    }
    if str_eq(name, "教官的羽饰") {
        return true;
    }
    if str_eq(name, "教官的怀表") {
        return true;
    }
    if str_eq(name, "教官的茶杯") {
        return true;
    }
    if str_eq(name, "教官的帽子") {
        return true;
    }
    false
}

/// Whether `name` is the name of a piece of this set.
pub open spec fn is_martial_artist_piece(name: Seq<char>) -> bool {
    ||| name == "武人的红花"@
    ||| name == "武人的羽饰"@
    ||| name == "武人的水漏"@
    ||| name == "武人的酒杯"@
    ||| name == "武人的头巾"@
}

fn is_martial_artist_piece_exec(name: &str) -> (found: bool)
    ensures
        found == is_martial_artist_piece(name@),
{
    if str_eq(name, "武人的红花") {
        return true;
    }
    if str_eq(name, "武人的羽饰") {
        return true;
    }
    if str_eq(name, "武人的水漏") {
        return true;
    }
    if str_eq(name, "武人的酒杯") {
        return true;
    }
    if str_eq(name, "武人的头巾") {
        return true;
    }
    false
}

/// Whether `name` is the name of a piece of this set.
pub open spec fn is_resolution_of_sojourner_piece(name: Seq<char>) -> bool {
    ||| name == "故人之心"@
    ||| name == "归乡之羽"@
    ||| name == "逐光之石"@
    ||| name == "异国之盏"@
    ||| name == "感别之冠"@
}

fn is_resolution_of_sojourner_piece_exec(name: &str) -> (found: bool)
    ensures
        found == is_resolution_of_sojourner_piece(name@),
{
    if str_eq(name, "故人之心") {
        return true;
    }
    if str_eq(name, "归乡之羽") {
        return true;
    }
    if str_eq(name, "逐光之石") {
        return true;
    }
    if str_eq(name, "异国之盏") {
        return true;
    }
    if str_eq(name, "感别之冠") {
        return true;
    }
    false
}

/// Whether `name` is the name of a piece of this set.
pub open spec fn is_scholar_piece(name: Seq<char>) -> bool {
    ||| name == "学士的书签"@
    ||| name == "学士的羽笔"@
    ||| name == "学士的时钟"@
    ||| name == "学士的墨杯"@
    ||| name == "学士的镜片"@
}

fn is_scholar_piece_exec(name: &str) -> (found: bool)
    ensures
        found == is_scholar_piece(name@),
{
    if str_eq(name, "学士的书签") {
        return true;
    }
    if str_eq(name, "学士的羽笔") {
        return true;
    }
    if str_eq(name, "学士的时钟") {
        return true;
    }
    if str_eq(name, "学士的墨杯") {
        return true;
    }
    if str_eq(name, "学士的镜片") {
        return true;
    }
    false
}

/// Whether `name` is the name of a piece of this set.
pub open spec fn is_tiny_miracle_piece(name: Seq<char>) -> bool {
    ||| name == "奇迹之花"@
    ||| name == "奇迹之羽"@
    ||| name == "奇迹之沙"@
    ||| name == "奇迹之杯"@
    ||| name == "奇迹耳坠"@
}

fn is_tiny_miracle_piece_exec(name: &str) -> (found: bool)
    ensures
        found == is_tiny_miracle_piece(name@),
{
    if str_eq(name, "奇迹之花") {
        return true;
    }
    if str_eq(name, "奇迹之羽") {
        return true;
    }
    if str_eq(name, "奇迹之沙") {
        return true;
    }
    if str_eq(name, "奇迹之杯") {
        return true;
    }
    if str_eq(name, "奇迹耳坠") {
        return true;
    }
    false
}

/// Whether `name` is the name of a piece of this set.
pub open spec fn is_adventurer_piece(name: Seq<char>) -> bool {
    ||| name == "冒险家之花"@
    ||| name == "冒险家尾羽"@
    ||| name == "冒险家怀表"@
    ||| name == "冒险家金杯"@
    ||| name == "冒险家头带"@
}

fn is_adventurer_piece_exec(name: &str) -> (found: bool)
    ensures
        found == is_adventurer_piece(name@),
{
    if str_eq(name, "冒险家之花") {
        return true;
    }
    if str_eq(name, "冒险家尾羽") {
        return true;
    }
    if str_eq(name, "冒险家怀表") {
        return true;
    }
    if str_eq(name, "冒险家金杯") {
        return true;
    }
    if str_eq(name, "冒险家头带") {
        return true;
    }
    false
}

/// Whether `name` is the name of a piece of this set.
pub open spec fn is_lucky_dog_piece(name: Seq<char>) -> bool {
    ||| name == "幸运儿绿花"@
    ||| name == "幸运儿鹰羽"@
    ||| name == "幸运儿沙漏"@
    ||| name == "幸运儿之杯"@
    ||| name == "幸运儿银冠"@
}

fn is_lucky_dog_piece_exec(name: &str) -> (found: bool)
    ensures
        found == is_lucky_dog_piece(name@),
{
    if str_eq(name, "幸运儿绿花") {
        return true;
    }
    if str_eq(name, "幸运儿鹰羽") {
        return true;
    }
    if str_eq(name, "幸运儿沙漏") {
        return true;
    }
    if str_eq(name, "幸运儿之杯") {
        return true;
    }
    if str_eq(name, "幸运儿银冠") {
        return true;
    }
    false
}

/// Whether `name` is the name of a piece of this set.
pub open spec fn is_traveling_doctor_piece(name: Seq<char>) -> bool {
    ||| name == "游医的银莲"@
    ||| name == "游医的枭羽"@
    ||| name == "游医的怀钟"@
    ||| name == "游医的药壶"@
    ||| name == "游医的方巾"@
}

fn is_traveling_doctor_piece_exec(name: &str) -> (found: bool)
    ensures
        found == is_traveling_doctor_piece(name@),
{
    if str_eq(name, "游医的银莲") {
        return true;
    }
    if str_eq(name, "游医的枭羽") {
        return true;
    }
    if str_eq(name, "游医的怀钟") {
        return true;
    }
    if str_eq(name, "游医的药壶") {
        return true;
    }
    if str_eq(name, "游医的方巾") {
        return true;
    }
    false
}

/// Whether `name` is the name of a piece of this set.
pub open spec fn is_prayers_for_wisdom_piece(name: Seq<char>) -> bool {
    ||| name == "祭雷礼冠"@
}

fn is_prayers_for_wisdom_piece_exec(name: &str) -> (found: bool)
    ensures
        found == is_prayers_for_wisdom_piece(name@),
{
    if str_eq(name, "祭雷礼冠") {
        return true;
    }
    false
}

/// Whether `name` is the name of a piece of this set.
pub open spec fn is_prayers_to_springtime_piece(name: Seq<char>) -> bool {
    ||| name == "祭冰礼冠"@
}

fn is_prayers_to_springtime_piece_exec(name: &str) -> (found: bool)
    ensures
        found == is_prayers_to_springtime_piece(name@),
{
    if str_eq(name, "祭冰礼冠") {
        return true;
    }
    false
}

/// Whether `name` is the name of a piece of this set.
pub open spec fn is_prayers_for_illumination_piece(name: Seq<char>) -> bool {
    ||| name == "祭火礼冠"@
}

fn is_prayers_for_illumination_piece_exec(name: &str) -> (found: bool)
    ensures
        found == is_prayers_for_illumination_piece(name@),
{
    if str_eq(name, "祭火礼冠") {
        return true;
    }
    false
}

/// Whether `name` is the name of a piece of this set.
pub open spec fn is_prayers_for_destiny_piece(name: Seq<char>) -> bool {
    ||| name == "祭水礼冠"@
}

fn is_prayers_for_destiny_piece_exec(name: &str) -> (found: bool)
    ensures
        found == is_prayers_for_destiny_piece(name@),
{
    if str_eq(name, "祭水礼冠") {
        return true;
    }
    false
}

/// Whether `name` is the name of a piece of this set.
pub open spec fn is_gladiator_finale_piece(name: Seq<char>) -> bool {
    ||| name == "角斗士的留恋"@
    ||| name == "角斗士的归宿"@
    ||| name == "角斗士的希冀"@
    ||| name == "角斗士的酣醉"@
    ||| name == "角斗士的凯旋"@
}

fn is_gladiator_finale_piece_exec(name: &str) -> (found: bool)
    ensures
        found == is_gladiator_finale_piece(name@),
{
    if str_eq(name, "角斗士的留恋") {
        return true;
    }
    if str_eq(name, "角斗士的归宿") {
        return true;
    }
    if str_eq(name, "角斗士的希冀") {
        return true;
    }
    if str_eq(name, "角斗士的酣醉") {
        return true;
    }
    if str_eq(name, "角斗士的凯旋") {
        return true;
    }
    false
}

/// Whether `name` is the name of a piece of this set.
pub open spec fn is_wanderer_troupe_piece(name: Seq<char>) -> bool {
    ||| name == "乐团的晨光"@
    ||| name == "琴师的箭羽"@
    ||| name == "终幕的时计"@
    ||| name == "吟游者之壶"@
    ||| name == "指挥的礼帽"@
}

fn is_wanderer_troupe_piece_exec(name: &str) -> (found: bool)
    ensures
        found == is_wanderer_troupe_piece(name@),
{
    if str_eq(name, "乐团的晨光") {
        return true;
    }
    if str_eq(name, "琴师的箭羽") {
        return true;
    }
    if str_eq(name, "终幕的时计") {
        return true;
    }
    if str_eq(name, "吟游者之壶") {
        return true;
    }
    if str_eq(name, "指挥的礼帽") {
        return true;
    }
    false
}

/// Whether `name` is the name of a piece of this set.
pub open spec fn is_viridescent_venerer_piece(name: Seq<char>) -> bool {
    ||| name == "野花记忆的绿野"@
    ||| name == "猎人青翠的箭羽"@
    ||| name == "翠绿猎人的笃定"@
    ||| name == "翠绿猎人的容器"@
    ||| name == "翠绿的猎人之冠"@
}

fn is_viridescent_venerer_piece_exec(name: &str) -> (found: bool)
    ensures
        found == is_viridescent_venerer_piece(name@),
{
    if str_eq(name, "野花记忆的绿野") {
        return true;
    }
    if str_eq(name, "猎人青翠的箭羽") {
        return true;
    }
    if str_eq(name, "翠绿猎人的笃定") {
        return true;
    }
    if str_eq(name, "翠绿猎人的容器") {
        return true;
    }
    if str_eq(name, "翠绿的猎人之冠") {
        return true;
    }
    false
}

/// Whether `name` is the name of a piece of this set.
pub open spec fn is_maiden_beloved_piece(name: Seq<char>) -> bool {
    ||| name == "远方的少女之心"@
    ||| name == "少女飘摇的思念"@
    ||| name == "少女苦短的良辰"@
    ||| name == "少女片刻的闲暇"@
    ||| name == "少女易逝的芳颜"@
}

fn is_maiden_beloved_piece_exec(name: &str) -> (found: bool)
    ensures
        found == is_maiden_beloved_piece(name@),
{
    if str_eq(name, "远方的少女之心") {
        return true;
    }
    if str_eq(name, "少女飘摇的思念") {
        return true;
    }
    if str_eq(name, "少女苦短的良辰") {
        return true;
    }
    if str_eq(name, "少女片刻的闲暇") {
        return true;
    }
    if str_eq(name, "少女易逝的芳颜") {
        return true;
    }
    false
}

/// Whether `name` is the name of a piece of this set.
pub open spec fn is_crimson_witch_piece(name: Seq<char>) -> bool {
    ||| name == "魔女的炎之花"@
    ||| name == "魔女常燃之羽"@
    ||| name == "魔女破灭之时"@
    ||| name == "魔女的心之火"@
    ||| name == "焦灼的魔女帽"@
}

fn is_crimson_witch_piece_exec(name: &str) -> (found: bool)
    ensures
        found == is_crimson_witch_piece(name@),
{
    if str_eq(name, "魔女的炎之花") {
        return true;
    }
    if str_eq(name, "魔女常燃之羽") {
        return true;
    }
    if str_eq(name, "魔女破灭之时") {
        return true;
    }
    if str_eq(name, "魔女的心之火") {
        return true;
    }
    if str_eq(name, "焦灼的魔女帽") {
        return true;
    }
    false
}

/// Whether `name` is the name of a piece of this set.
pub open spec fn is_thundering_fury_piece(name: Seq<char>) -> bool {
    ||| name == "雷鸟的怜悯"@
    ||| name == "雷灾的孑遗"@
    ||| name == "雷霆的时计"@
    ||| name == "降雷的凶兆"@
    ||| name == "唤雷的头冠"@
}

fn is_thundering_fury_piece_exec(name: &str) -> (found: bool)
    ensures
        found == is_thundering_fury_piece(name@),
{
    if str_eq(name, "雷鸟的怜悯") {
        return true;
    }
    if str_eq(name, "雷灾的孑遗") {
        return true;
    }
    if str_eq(name, "雷霆的时计") {
        return true;
    }
    if str_eq(name, "降雷的凶兆") {
        return true;
    }
    if str_eq(name, "唤雷的头冠") {
        return true;
    }
    false
}

/// Whether `name` is the name of a piece of this set.
pub open spec fn is_thunder_smoother_piece(name: Seq<char>) -> bool {
    ||| name == "平雷之心"@
    ||| name == "平雷之羽"@
    ||| name == "平雷之刻"@
    ||| name == "平雷之器"@
    ||| name == "平雷之冠"@
}

fn is_thunder_smoother_piece_exec(name: &str) -> (found: bool)
    ensures
        found == is_thunder_smoother_piece(name@),
{
    if str_eq(name, "平雷之心") {
        return true;
    }
    if str_eq(name, "平雷之羽") {
        return true;
    }
    if str_eq(name, "平雷之刻") {
        return true;
    }
    if str_eq(name, "平雷之器") {
        return true;
    }
    if str_eq(name, "平雷之冠") {
        return true;
    }
    false
}

/// Whether `name` is the name of a piece of this set.
pub open spec fn is_lava_walker_piece(name: Seq<char>) -> bool {
    ||| name == "渡火者的决绝"@
    ||| name == "渡火者的解脱"@
    ||| name == "渡火者的煎熬"@
    ||| name == "渡火者的醒悟"@
    ||| name == "渡火者的智慧"@
}

fn is_lava_walker_piece_exec(name: &str) -> (found: bool)
    ensures
        found == is_lava_walker_piece(name@),
{
    if str_eq(name, "渡火者的决绝") {
        return true;
    }
    if str_eq(name, "渡火者的解脱") {
        return true;
    }
    if str_eq(name, "渡火者的煎熬") {
        return true;
    }
    if str_eq(name, "渡火者的醒悟") {
        return true;
    }
    if str_eq(name, "渡火者的智慧") {
        return true;
    }
    false
}

/// Whether `name` is the name of a piece of this set.
pub open spec fn is_bloodstained_chivalry_piece(name: Seq<char>) -> bool {
    ||| name == "染血的铁之心"@
    ||| name == "染血的黑之羽"@
    ||| name == "骑士染血之时"@
    ||| name == "染血骑士之杯"@
    ||| name == "染血的铁假面"@
}

fn is_bloodstained_chivalry_piece_exec(name: &str) -> (found: bool)
    ensures
        found == is_bloodstained_chivalry_piece(name@),
{
    if str_eq(name, "染血的铁之心") {
        return true;
    }
    if str_eq(name, "染血的黑之羽") {
        return true;
    }
    if str_eq(name, "骑士染血之时") {
        return true;
    }
    if str_eq(name, "染血骑士之杯") {
        return true;
    }
    if str_eq(name, "染血的铁假面") {
        return true;
    }
    false
}

/// Whether `name` is the name of a piece of this set.
pub open spec fn is_noblesse_oblige_piece(name: Seq<char>) -> bool {
    ||| name == "宗室之花"@
    ||| name == "宗室之翎"@
    ||| name == "宗室时计"@
    ||| name == "宗室银瓮"@
    ||| name == "宗室面具"@
}

fn is_noblesse_oblige_piece_exec(name: &str) -> (found: bool)
    ensures
        found == is_noblesse_oblige_piece(name@),
{
    if str_eq(name, "宗室之花") {
        return true;
    }
    if str_eq(name, "宗室之翎") {
        return true;
    }
    if str_eq(name, "宗室时计") {
        return true;
    }
    if str_eq(name, "宗室银瓮") {
        return true;
    }
    if str_eq(name, "宗室面具") {
        return true;
    }
    false
}

/// Whether `name` is the name of a piece of this set.
pub open spec fn is_archaic_petra_piece(name: Seq<char>) -> bool {
    ||| name == "磐陀裂生之花"@
    ||| name == "嵯峨群峰之翼"@
    ||| name == "星罗圭壁之晷"@
    ||| name == "星罗圭璧之晷"@
    ||| name == "巉岩琢塑之樽"@
    ||| name == "不动玄石之相"@
}

fn is_archaic_petra_piece_exec(name: &str) -> (found: bool)
    ensures
        found == is_archaic_petra_piece(name@),
{
    if str_eq(name, "磐陀裂生之花") {
        return true;
    }
    if str_eq(name, "嵯峨群峰之翼") {
        return true;
    }
    if str_eq(name, "星罗圭壁之晷") {
        return true;
    }
    if str_eq(name, "星罗圭璧之晷") {
        return true;
    }
    if str_eq(name, "巉岩琢塑之樽") {
        return true;
    }
    if str_eq(name, "不动玄石之相") {
        return true;
    }
    false
}

/// Whether `name` is the name of a piece of this set.
pub open spec fn is_retracing_bolide_piece(name: Seq<char>) -> bool {
    ||| name == "夏祭之花"@
    ||| name == "夏祭终末"@
    ||| name == "夏祭之刻"@
    ||| name == "夏祭水玉"@
    ||| name == "夏祭之面"@
}

fn is_retracing_bolide_piece_exec(name: &str) -> (found: bool)
    ensures
        found == is_retracing_bolide_piece(name@),
{
    if str_eq(name, "夏祭之花") {
        return true;
    }
    if str_eq(name, "夏祭终末") {
        return true;
    }
    if str_eq(name, "夏祭之刻") {
        return true;
    }
    if str_eq(name, "夏祭水玉") {
        return true;
    }
    if str_eq(name, "夏祭之面") {
        return true;
    }
    false
}

/// Whether `name` is the name of a piece of this set.
pub open spec fn is_blizzard_strayer_piece(name: Seq<char>) -> bool {
    ||| name == "历经风雪的思念"@
    ||| name == "摧冰而行的执望"@
    ||| name == "冰雪故园的终期"@
    ||| name == "遍结寒霜的傲骨"@
    ||| name == "破冰踏雪的回音"@
}

fn is_blizzard_strayer_piece_exec(name: &str) -> (found: bool)
    ensures
        found == is_blizzard_strayer_piece(name@),
{
    if str_eq(name, "历经风雪的思念") {
        return true;
    }
    if str_eq(name, "摧冰而行的执望") {
        return true;
    }
    if str_eq(name, "冰雪故园的终期") {
        return true;
    }
    if str_eq(name, "遍结寒霜的傲骨") {
        return true;
    }
    if str_eq(name, "破冰踏雪的回音") {
        return true;
    }
    false
}

/// Whether `name` is the name of a piece of this set.
pub open spec fn is_heart_of_depth_piece(name: Seq<char>) -> bool {
    ||| name == "饰金胸花"@
    ||| name == "追忆之风"@
    ||| name == "坚铜罗盘"@
    ||| name == "沉波之盏"@
    ||| name == "酒渍船帽"@
}

fn is_heart_of_depth_piece_exec(name: &str) -> (found: bool)
    ensures
        found == is_heart_of_depth_piece(name@),
{
    if str_eq(name, "饰金胸花") {
        return true;
    }
    if str_eq(name, "追忆之风") {
        return true;
    }
    if str_eq(name, "坚铜罗盘") {
        return true;
    }
    if str_eq(name, "沉波之盏") {
        return true;
    }
    if str_eq(name, "酒渍船帽") {
        return true;
    }
    false
}

/// Whether `name` is the name of a piece of this set.
pub open spec fn is_pale_flame_piece(name: Seq<char>) -> bool {
    ||| name == "无垢之花"@
    ||| name == "贤医之羽"@
    ||| name == "停摆之刻"@
    ||| name == "超越之盏"@
    ||| name == "嗤笑之面"@
}

fn is_pale_flame_piece_exec(name: &str) -> (found: bool)
    ensures
        found == is_pale_flame_piece(name@),
{
    if str_eq(name, "无垢之花") {
        return true;
    }
    if str_eq(name, "贤医之羽") {
        return true;
    }
    if str_eq(name, "停摆之刻") {
        return true;
    }
    if str_eq(name, "超越之盏") {
        return true;
    }
    if str_eq(name, "嗤笑之面") {
        return true;
    }
    false
}

/// Whether `name` is the name of a piece of this set.
pub open spec fn is_tenacity_of_the_millelith_piece(name: Seq<char>) -> bool {
    ||| name == "勋绩之花"@
    ||| name == "昭武翎羽"@
    ||| name == "金铜时晷"@
    ||| name == "盟誓金爵"@
    ||| name == "将帅兜鍪"@
}

fn is_tenacity_of_the_millelith_piece_exec(name: &str) -> (found: bool)
    ensures
        found == is_tenacity_of_the_millelith_piece(name@),
{
    if str_eq(name, "勋绩之花") {
        return true;
    }
    if str_eq(name, "昭武翎羽") {
        return true;
    }
    if str_eq(name, "金铜时晷") {
        return true;
    }
    if str_eq(name, "盟誓金爵") {
        return true;
    }
    if str_eq(name, "将帅兜鍪") {
        return true;
    }
    false
}

/// Whether `name` is the name of a piece of this set.
pub open spec fn is_emblem_of_severed_fate_piece(name: Seq<char>) -> bool {
    ||| name == "明威之镡"@
    ||| name == "切落之羽"@
    ||| name == "雷云之笼"@
    ||| name == "绯花之壶"@
    ||| name == "华饰之兜"@
}

fn is_emblem_of_severed_fate_piece_exec(name: &str) -> (found: bool)
    ensures
        found == is_emblem_of_severed_fate_piece(name@),
{
    if str_eq(name, "明威之镡") {
        return true;
    }
    if str_eq(name, "切落之羽") {
        return true;
    }
    if str_eq(name, "雷云之笼") {
        return true;
    }
    if str_eq(name, "绯花之壶") {
        return true;
    }
    if str_eq(name, "华饰之兜") {
        return true;
    }
    false
}

/// Whether `name` is the name of a piece of this set.
pub open spec fn is_shimenawa_reminiscence_piece(name: Seq<char>) -> bool {
    ||| name == "羁缠之花"@
    ||| name == "思忆之矢"@
    ||| name == "朝露之时"@
    ||| name == "祈望之心"@
    ||| name == "无常之面"@
}

fn is_shimenawa_reminiscence_piece_exec(name: &str) -> (found: bool)
    ensures
        found == is_shimenawa_reminiscence_piece(name@),
{
    if str_eq(name, "羁缠之花") {
        return true;
    }
    if str_eq(name, "思忆之矢") {
        return true;
    }
    if str_eq(name, "朝露之时") {
        return true;
    }
    if str_eq(name, "祈望之心") {
        return true;
    }
    if str_eq(name, "无常之面") {
        return true;
    }
    false
}

/// Whether `name` is the name of a piece of this set.
pub open spec fn is_husk_of_opulent_dreams_piece(name: Seq<char>) -> bool {
    ||| name == "荣花之期"@
    ||| name == "华馆之羽"@
    ||| name == "众生之谣"@
    ||| name == "梦醒之瓢"@
    ||| name == "形骸之笠"@
}

fn is_husk_of_opulent_dreams_piece_exec(name: &str) -> (found: bool)
    ensures
        found == is_husk_of_opulent_dreams_piece(name@),
{
    if str_eq(name, "荣花之期") {
        return true;
    }
    if str_eq(name, "华馆之羽") {
        return true;
    }
    if str_eq(name, "众生之谣") {
        return true;
    }
    if str_eq(name, "梦醒之瓢") {
        return true;
    }
    if str_eq(name, "形骸之笠") {
        return true;
    }
    false
}

/// Whether `name` is the name of a piece of this set.
pub open spec fn is_ocean_hued_clam_piece(name: Seq<char>) -> bool {
    ||| name == "海染之花"@
    ||| name == "渊宫之羽"@
    ||| name == "离别之贝"@
    ||| name == "真珠之笼"@
    ||| name == "海祇之冠"@
}

fn is_ocean_hued_clam_piece_exec(name: &str) -> (found: bool)
    ensures
        found == is_ocean_hued_clam_piece(name@),
{
    if str_eq(name, "海染之花") {
        return true;
    }
    if str_eq(name, "渊宫之羽") {
        return true;
    }
    if str_eq(name, "离别之贝") {
        return true;
    }
    if str_eq(name, "真珠之笼") {
        return true;
    }
    if str_eq(name, "海祇之冠") {
        return true;
    }
    false
}

/// Whether `name` is the name of a piece of this set.
pub open spec fn is_vermillion_hereafter_piece(name: Seq<char>) -> bool {
    ||| name == "生灵之华"@
    ||| name == "潜光片羽"@
    ||| name == "阳辔之遗"@
    ||| name == "结契之刻"@
    ||| name == "虺雷之姿"@
}

fn is_vermillion_hereafter_piece_exec(name: &str) -> (found: bool)
    ensures
        found == is_vermillion_hereafter_piece(name@),
{
    if str_eq(name, "生灵之华") {
        return true;
    }
    if str_eq(name, "潜光片羽") {
        return true;
    }
    if str_eq(name, "阳辔之遗") {
        return true;
    }
    if str_eq(name, "结契之刻") {
        return true;
    }
    if str_eq(name, "虺雷之姿") {
        return true;
    }
    false
}

/// Whether `name` is the name of a piece of this set.
pub open spec fn is_echoes_of_an_offering_piece(name: Seq<char>) -> bool {
    ||| name == "魂香之花"@
    ||| name == "垂玉之叶"@
    ||| name == "祝祀之凭"@
    ||| name == "涌泉之盏"@
    ||| name == "浮溯之珏"@
}

fn is_echoes_of_an_offering_piece_exec(name: &str) -> (found: bool)
    ensures
        found == is_echoes_of_an_offering_piece(name@),
{
    if str_eq(name, "魂香之花") {
        return true;
    }
    if str_eq(name, "垂玉之叶") {
        return true;
    }
    if str_eq(name, "祝祀之凭") {
        return true;
    }
    if str_eq(name, "涌泉之盏") {
        return true;
    }
    if str_eq(name, "浮溯之珏") {
        return true;
    }
    false
}

/// Whether `name` is the name of a piece of this set.
pub open spec fn is_deepwood_memories_piece(name: Seq<char>) -> bool {
    ||| name == "迷宫的游人"@
    ||| name == "翠蔓的智者"@
    ||| name == "贤智的定期"@
    ||| name == "迷误者之灯"@
    ||| name == "月桂的宝冠"@
}

fn is_deepwood_memories_piece_exec(name: &str) -> (found: bool)
    ensures
        found == is_deepwood_memories_piece(name@),
{
    if str_eq(name, "迷宫的游人") {
        return true;
    }
    if str_eq(name, "翠蔓的智者") {
        return true;
    }
    if str_eq(name, "贤智的定期") {
        return true;
    }
    if str_eq(name, "迷误者之灯") {
        return true;
    }
    if str_eq(name, "月桂的宝冠") {
        return true;
    }
    false
}

/// Whether `name` is the name of a piece of this set.
pub open spec fn is_gilded_dreams_piece(name: Seq<char>) -> bool {
    ||| name == "梦中的铁花"@
    ||| name == "裁断的翎羽"@
    ||| name == "沉金的岁月"@
    ||| name == "如蜜的终宴"@
    ||| name == "沙王的投影"@
}

fn is_gilded_dreams_piece_exec(name: &str) -> (found: bool)
    ensures
        found == is_gilded_dreams_piece(name@),
{
    if str_eq(name, "梦中的铁花") {
        return true;
    }
    if str_eq(name, "裁断的翎羽") {
        return true;
    }
    if str_eq(name, "沉金的岁月") {
        return true;
    }
    if str_eq(name, "如蜜的终宴") {
        return true;
    }
    if str_eq(name, "沙王的投影") {
        return true;
    }
    false
}

/// Whether `name` is the name of a piece of this set.
pub open spec fn is_flower_of_paradise_lost_piece(name: Seq<char>) -> bool {
    ||| name == "月女的华彩"@
    ||| name == "谢落的筵席"@
    ||| name == "凝结的时刻"@
    ||| name == "守秘的魔瓶"@
    ||| name == "紫晶的花冠"@
}

fn is_flower_of_paradise_lost_piece_exec(name: &str) -> (found: bool)
    ensures
        found == is_flower_of_paradise_lost_piece(name@),
{
    if str_eq(name, "月女的华彩") {
        return true;
    }
    if str_eq(name, "谢落的筵席") {
        return true;
    }
    if str_eq(name, "凝结的时刻") {
        return true;
    }
    if str_eq(name, "守秘的魔瓶") {
        return true;
    }
    if str_eq(name, "紫晶的花冠") {
        return true;
    }
    false
}

/// Whether `name` is the name of a piece of this set.
pub open spec fn is_desert_pavilion_chronicle_piece(name: Seq<char>) -> bool {
    ||| name == "众王之都的开端"@
    ||| name == "黄金邦国的结末"@
    ||| name == "失落迷途的机芯"@
    ||| name == "迷醉长梦的守护"@
    ||| name == "流沙贵嗣的遗宝"@
}

fn is_desert_pavilion_chronicle_piece_exec(name: &str) -> (found: bool)
    ensures
        found == is_desert_pavilion_chronicle_piece(name@),
{
    if str_eq(name, "众王之都的开端") {
        return true;
    }
    if str_eq(name, "黄金邦国的结末") {
        return true;
    }
    if str_eq(name, "失落迷途的机芯") {
        return true;
    }
    if str_eq(name, "迷醉长梦的守护") {
        return true;
    }
    if str_eq(name, "流沙贵嗣的遗宝") {
        return true;
    }
    false
}

/// Whether `name` is the name of a piece of this set.
pub open spec fn is_nymphs_dream_piece(name: Seq<char>) -> bool {
    ||| name == "旅途中的鲜花"@
    ||| name == "坏巫师的羽杖"@
    ||| name == "水仙的时时刻刻"@
    ||| name == "勇者们的茶会"@
    ||| name == "恶龙的单片镜"@
}

fn is_nymphs_dream_piece_exec(name: &str) -> (found: bool)
    ensures
        found == is_nymphs_dream_piece(name@),
{
    if str_eq(name, "旅途中的鲜花") {
        return true;
    }
    if str_eq(name, "坏巫师的羽杖") {
        return true;
    }
    if str_eq(name, "水仙的时时刻刻") {
        return true;
    }
    if str_eq(name, "勇者们的茶会") {
        return true;
    }
    if str_eq(name, "恶龙的单片镜") {
        return true;
    }
    false
}

/// Whether `name` is the name of a piece of this set.
pub open spec fn is_vourukashas_glow_piece(name: Seq<char>) -> bool {
    ||| name == "灵光源起之蕊"@
    ||| name == "琦色灵彩之羽"@
    ||| name == "久远花落之时"@
    ||| name == "无边酣乐之筵"@
    ||| name == "灵光明烁之心"@
}

fn is_vourukashas_glow_piece_exec(name: &str) -> (found: bool)
    ensures
        found == is_vourukashas_glow_piece(name@),
{
    if str_eq(name, "灵光源起之蕊") {
        return true;
    }
    if str_eq(name, "琦色灵彩之羽") {
        return true;
    }
    if str_eq(name, "久远花落之时") {
        return true;
    }
    if str_eq(name, "无边酣乐之筵") {
        return true;
    }
    if str_eq(name, "灵光明烁之心") {
        return true;
    }
    false
}

/// Whether `name` is the name of a piece of this set.
pub open spec fn is_marechaussee_hunter_piece(name: Seq<char>) -> bool {
    ||| name == "猎人的胸花"@
    ||| name == "杰作的序曲"@
    ||| name == "裁判的时刻"@
    ||| name == "遗忘的容器"@
    ||| name == "老兵的容颜"@
}

fn is_marechaussee_hunter_piece_exec(name: &str) -> (found: bool)
    ensures
        found == is_marechaussee_hunter_piece(name@),
{
    if str_eq(name, "猎人的胸花") {
        return true;
    }
    if str_eq(name, "杰作的序曲") {
        return true;
    }
    if str_eq(name, "裁判的时刻") {
        return true;
    }
    if str_eq(name, "遗忘的容器") {
        return true;
    }
    if str_eq(name, "老兵的容颜") {
        return true;
    }
    false
}

/// Whether `name` is the name of a piece of this set.
pub open spec fn is_golden_troupe_piece(name: Seq<char>) -> bool {
    ||| name == "黄金乐曲的变奏"@
    ||| name == "黄金飞鸟的落羽"@
    ||| name == "黄金时代的先声"@
    ||| name == "黄金之夜的喧嚣"@
    ||| name == "黄金剧团的奖赏"@
}

fn is_golden_troupe_piece_exec(name: &str) -> (found: bool)
    ensures
        found == is_golden_troupe_piece(name@),
{
    if str_eq(name, "黄金乐曲的变奏") {
        return true;
    }
    if str_eq(name, "黄金飞鸟的落羽") {
        return true;
    }
    if str_eq(name, "黄金时代的先声") {
        return true;
    }
    if str_eq(name, "黄金之夜的喧嚣") {
        return true;
    }
    if str_eq(name, "黄金剧团的奖赏") {
        return true;
    }
    false
}

/// Whether `name` is the name of a piece of this set.
pub open spec fn is_song_of_days_past_piece(name: Seq<char>) -> bool {
    ||| name == "昔时遗落之誓"@
    ||| name == "昔时浮想之思"@
    ||| name == "昔时回映之音"@
    ||| name == "昔时应许之梦"@
    ||| name == "昔时传奏之诗"@
}

fn is_song_of_days_past_piece_exec(name: &str) -> (found: bool)
    ensures
        found == is_song_of_days_past_piece(name@),
{
    if str_eq(name, "昔时遗落之誓") {
        return true;
    }
    if str_eq(name, "昔时浮想之思") {
        return true;
    }
    if str_eq(name, "昔时回映之音") {
        return true;
    }
    if str_eq(name, "昔时应许之梦") {
        return true;
    }
    if str_eq(name, "昔时传奏之诗") {
        return true;
    }
    false
}

/// Whether `name` is the name of a piece of this set.
pub open spec fn is_nighttime_whispers_in_the_echoing_woods_piece(name: Seq<char>) -> bool {
    ||| name == "无私的妆饰花"@
    ||| name == "诚恳的蘸水笔"@
    ||| name == "忠实的砂时计"@
    ||| name == "慷慨的墨水瓶"@
    ||| name == "慈爱的淑女帽"@
}

fn is_nighttime_whispers_in_the_echoing_woods_piece_exec(name: &str) -> (found: bool)
    ensures
        found == is_nighttime_whispers_in_the_echoing_woods_piece(name@),
{
    if str_eq(name, "无私的妆饰花") {
        return true;
    }
    if str_eq(name, "诚恳的蘸水笔") {
        return true;
    }
    if str_eq(name, "忠实的砂时计") {
        return true;
    }
    if str_eq(name, "慷慨的墨水瓶") {
        return true;
    }
    if str_eq(name, "慈爱的淑女帽") {
        return true;
    }
    false
}

/// Whether `name` is the name of a piece of this set.
pub open spec fn is_fragment_of_harmonic_whimsy_piece(name: Seq<char>) -> bool {
    ||| name == "谐律交响的前奏"@
    ||| name == "古海玄幽的夜想"@
    ||| name == "命途轮转的谐谑"@
    ||| name == "灵露倾洒的狂诗"@
    ||| name == "异想零落的圆舞"@
}

fn is_fragment_of_harmonic_whimsy_piece_exec(name: &str) -> (found: bool)
    ensures
        found == is_fragment_of_harmonic_whimsy_piece(name@),
{
    if str_eq(name, "谐律交响的前奏") {
        return true;
    }
    if str_eq(name, "古海玄幽的夜想") {
        return true;
    }
    if str_eq(name, "命途轮转的谐谑") {
        return true;
    }
    if str_eq(name, "灵露倾洒的狂诗") {
        return true;
    }
    if str_eq(name, "异想零落的圆舞") {
        return true;
    }
    false
}

/// Whether `name` is the name of a piece of this set.
pub open spec fn is_unfinished_reverie_piece(name: Seq<char>) -> bool {
    ||| name == "暗结的明花"@
    ||| name == "褪光的翠尾"@
    ||| name == "举业的识刻"@
    ||| name == "筹谋的共樽"@
    ||| name == "失冕的宝冠"@
}

fn is_unfinished_reverie_piece_exec(name: &str) -> (found: bool)
    ensures
        found == is_unfinished_reverie_piece(name@),
{
    if str_eq(name, "暗结的明花") {
        return true;
    }
    if str_eq(name, "褪光的翠尾") {
        return true;
    }
    if str_eq(name, "举业的识刻") {
        return true;
    }
    if str_eq(name, "筹谋的共樽") {
        return true;
    }
    if str_eq(name, "失冕的宝冠") {
        return true;
    }
    false
}

/// Whether `name` is the name of a piece of this set.
pub open spec fn is_scroll_of_the_hero_of_cinder_city_piece(name: Seq<char>) -> bool {
    ||| name == "驯兽师的护符"@
    ||| name == "巡山客的信标"@
    ||| name == "秘术家的金盘"@
    ||| name == "游学者的爪杯"@
    ||| name == "魔战士的羽面"@
}

fn is_scroll_of_the_hero_of_cinder_city_piece_exec(name: &str) -> (found: bool)
    ensures
        found == is_scroll_of_the_hero_of_cinder_city_piece(name@),
{
    if str_eq(name, "驯兽师的护符") {
        return true;
    }
    if str_eq(name, "巡山客的信标") {
        return true;
    }
    if str_eq(name, "秘术家的金盘") {
        return true;
    }
    if str_eq(name, "游学者的爪杯") {
        return true;
    }
    if str_eq(name, "魔战士的羽面") {
        return true;
    }
    false
}

/// Whether `name` is the name of a piece of this set.
pub open spec fn is_obsidian_codex_piece(name: Seq<char>) -> bool {
    ||| name == "异种的期许"@
    ||| name == "灵髓的根脉"@
    ||| name == "夜域的迷思"@
    ||| name == "纷争的前宴"@
    ||| name == "诸圣的礼冠"@
}

fn is_obsidian_codex_piece_exec(name: &str) -> (found: bool)
    ensures
        found == is_obsidian_codex_piece(name@),
{
    if str_eq(name, "异种的期许") {
        return true;
    }
    if str_eq(name, "灵髓的根脉") {
        return true;
    }
    if str_eq(name, "夜域的迷思") {
        return true;
    }
    if str_eq(name, "纷争的前宴") {
        return true;
    }
    if str_eq(name, "诸圣的礼冠") {
        return true;
    }
    false
}

/// Whether `name` is the name of a piece of this set.
pub open spec fn is_long_nights_oath_piece(name: Seq<char>) -> bool {
    ||| name == "执灯人的誓言"@
    ||| name == "夜鸣莺的尾羽"@
    ||| name == "不死者的哀铃"@
    ||| name == "未吹响的号角"@
    ||| name == "被浸染的缨盔"@
}

fn is_long_nights_oath_piece_exec(name: &str) -> (found: bool)
    ensures
        found == is_long_nights_oath_piece(name@),
{
    if str_eq(name, "执灯人的誓言") {
        return true;
    }
    if str_eq(name, "夜鸣莺的尾羽") {
        return true;
    }
    if str_eq(name, "不死者的哀铃") {
        return true;
    }
    if str_eq(name, "未吹响的号角") {
        return true;
    }
    if str_eq(name, "被浸染的缨盔") {
        return true;
    }
    false
}

/// Whether `name` is the name of a piece of this set.
pub open spec fn is_finale_of_the_deep_galleries_piece(name: Seq<char>) -> bool {
    ||| name == "深廊的回奏之歌"@
    ||| name == "深廊的漫远之约"@
    ||| name == "深廊的湮落之刻"@
    ||| name == "深廊的饫赐之宴"@
    ||| name == "深廊的遂失之冕"@
}

fn is_finale_of_the_deep_galleries_piece_exec(name: &str) -> (found: bool)
    ensures
        found == is_finale_of_the_deep_galleries_piece(name@),
{
    if str_eq(name, "深廊的回奏之歌") {
        return true;
    }
    if str_eq(name, "深廊的漫远之约") {
        return true;
    }
    if str_eq(name, "深廊的湮落之刻") {
        return true;
    }
    if str_eq(name, "深廊的饫赐之宴") {
        return true;
    }
    if str_eq(name, "深廊的遂失之冕") {
        return true;
    }
    false
}

/// The set whose piece has the name `name`.
pub open spec fn set_name_of(name: Seq<char>) -> Option<ArtifactSetName> {
    if is_berserker_piece(name) {
        Some(ArtifactSetName::Berserker)
    }     else if is_brave_heart_piece(name) {
        Some(ArtifactSetName::BraveHeart)
    }     else if is_defender_will_piece(name) {
        Some(ArtifactSetName::DefenderWill)
    }     else if is_exile_piece(name) {
        Some(ArtifactSetName::Exile)
    }     else if is_gambler_piece(name) {
        Some(ArtifactSetName::Gambler)
    }     else if is_instructor_piece(name) {
        Some(ArtifactSetName::Instructor)
    }     else if is_martial_artist_piece(name) {
        Some(ArtifactSetName::MartialArtist)
    }     else if is_resolution_of_sojourner_piece(name) {
        Some(ArtifactSetName::ResolutionOfSojourner)
    }     else if is_scholar_piece(name) {
        Some(ArtifactSetName::Scholar)
    }     else if is_tiny_miracle_piece(name) {
        Some(ArtifactSetName::TinyMiracle)
    }     else if is_adventurer_piece(name) {
        Some(ArtifactSetName::Adventurer)
    }     else if is_lucky_dog_piece(name) {
        Some(ArtifactSetName::LuckyDog)
    }     else if is_traveling_doctor_piece(name) {
        Some(ArtifactSetName::TravelingDoctor)
    }     else if is_prayers_for_wisdom_piece(name) {
        Some(ArtifactSetName::PrayersForWisdom)
    }     else if is_prayers_to_springtime_piece(name) {
        Some(ArtifactSetName::PrayersToSpringtime)
    }     else if is_prayers_for_illumination_piece(name) {
        Some(ArtifactSetName::PrayersForIllumination)
    }     else if is_prayers_for_destiny_piece(name) {
        Some(ArtifactSetName::PrayersForDestiny)
    }     else if is_gladiator_finale_piece(name) {
        Some(ArtifactSetName::GladiatorFinale)
    }     else if is_wanderer_troupe_piece(name) {
        Some(ArtifactSetName::WandererTroupe)
    }     else if is_viridescent_venerer_piece(name) {
        Some(ArtifactSetName::ViridescentVenerer)
    }     else if is_maiden_beloved_piece(name) {
        Some(ArtifactSetName::MaidenBeloved)
    }     else if is_crimson_witch_piece(name) {
        Some(ArtifactSetName::CrimsonWitch)
    }     else if is_thundering_fury_piece(name) {
        Some(ArtifactSetName::ThunderingFury)
    }     else if is_thunder_smoother_piece(name) {
        Some(ArtifactSetName::ThunderSmoother)
    }     else if is_lava_walker_piece(name) {
        Some(ArtifactSetName::LavaWalker)
    }     else if is_bloodstained_chivalry_piece(name) {
        Some(ArtifactSetName::BloodstainedChivalry)
    }     else if is_noblesse_oblige_piece(name) {
        Some(ArtifactSetName::NoblesseOblige)
    }     else if is_archaic_petra_piece(name) {
        Some(ArtifactSetName::ArchaicPetra)
    }     else if is_retracing_bolide_piece(name) {
        Some(ArtifactSetName::RetracingBolide)
    }     else if is_blizzard_strayer_piece(name) {
        Some(ArtifactSetName::BlizzardStrayer)
    }     else if is_heart_of_depth_piece(name) {
        Some(ArtifactSetName::HeartOfDepth)
    }     else if is_pale_flame_piece(name) {
        Some(ArtifactSetName::PaleFlame)
    }     else if is_tenacity_of_the_millelith_piece(name) {
        Some(ArtifactSetName::TenacityOfTheMillelith)
    }     else if is_emblem_of_severed_fate_piece(name) {
        Some(ArtifactSetName::EmblemOfSeveredFate)
    }     else if is_shimenawa_reminiscence_piece(name) {
        Some(ArtifactSetName::ShimenawaReminiscence)
    }     else if is_husk_of_opulent_dreams_piece(name) {
        Some(ArtifactSetName::HuskOfOpulentDreams)
    }     else if is_ocean_hued_clam_piece(name) {
        Some(ArtifactSetName::OceanHuedClam)
    }     else if is_vermillion_hereafter_piece(name) {
        Some(ArtifactSetName::VermillionHereafter)
    }     else if is_echoes_of_an_offering_piece(name) {
        Some(ArtifactSetName::EchoesOfAnOffering)
    }     else if is_deepwood_memories_piece(name) {
        Some(ArtifactSetName::DeepwoodMemories)
    }     else if is_gilded_dreams_piece(name) {
        Some(ArtifactSetName::GildedDreams)
    }     else if is_flower_of_paradise_lost_piece(name) {
        Some(ArtifactSetName::FlowerOfParadiseLost)
    }     else if is_desert_pavilion_chronicle_piece(name) {
        Some(ArtifactSetName::DesertPavilionChronicle)
    }     else if is_nymphs_dream_piece(name) {
        Some(ArtifactSetName::NymphsDream)
    }     else if is_vourukashas_glow_piece(name) {
        Some(ArtifactSetName::VourukashasGlow)
    }     else if is_marechaussee_hunter_piece(name) {
        Some(ArtifactSetName::MarechausseeHunter)
    }     else if is_golden_troupe_piece(name) {
        Some(ArtifactSetName::GoldenTroupe)
    }     else if is_song_of_days_past_piece(name) {
        Some(ArtifactSetName::SongOfDaysPast)
    }     else if is_nighttime_whispers_in_the_echoing_woods_piece(name) {
        Some(ArtifactSetName::NighttimeWhispersInTheEchoingWoods)
    }     else if is_fragment_of_harmonic_whimsy_piece(name) {
        Some(ArtifactSetName::FragmentOfHarmonicWhimsy)
    }     else if is_unfinished_reverie_piece(name) {
        Some(ArtifactSetName::UnfinishedReverie)
    }     else if is_scroll_of_the_hero_of_cinder_city_piece(name) {
        Some(ArtifactSetName::ScrollOfTheHeroOfCinderCity)
    }     else if is_obsidian_codex_piece(name) {
        Some(ArtifactSetName::ObsidianCodex)
    }     else if is_long_nights_oath_piece(name) {
        Some(ArtifactSetName::LongNightsOath)
    }     else if is_finale_of_the_deep_galleries_piece(name) {
        Some(ArtifactSetName::FinaleOfTheDeepGalleries)
    } else {
        None
    }
}

impl ArtifactSetName {
    /// The set whose piece has the name `name`.
    pub fn from_zh_cn(name: &str) -> (set: Option<ArtifactSetName>)
        ensures
            set == set_name_of(name@),
    {
        if is_berserker_piece_exec(name) {
            return Some(ArtifactSetName::Berserker);
        }
        if is_brave_heart_piece_exec(name) {
            return Some(ArtifactSetName::BraveHeart);
        }
        if is_defender_will_piece_exec(name) {
            return Some(ArtifactSetName::DefenderWill);
        }
        if is_exile_piece_exec(name) {
            return Some(ArtifactSetName::Exile);
        }
        if is_gambler_piece_exec(name) {
            return Some(ArtifactSetName::Gambler);
        }
        if is_instructor_piece_exec(name) {
            return Some(ArtifactSetName::Instructor);
        }
        if is_martial_artist_piece_exec(name) {
            return Some(ArtifactSetName::MartialArtist);
        }
        if is_resolution_of_sojourner_piece_exec(name) {
            return Some(ArtifactSetName::ResolutionOfSojourner);
        }
        if is_scholar_piece_exec(name) {
            return Some(ArtifactSetName::Scholar);
        }
        if is_tiny_miracle_piece_exec(name) {
            return Some(ArtifactSetName::TinyMiracle);
        }
        if is_adventurer_piece_exec(name) {
            return Some(ArtifactSetName::Adventurer);
        }
        if is_lucky_dog_piece_exec(name) {
            return Some(ArtifactSetName::LuckyDog);
        }
        if is_traveling_doctor_piece_exec(name) {
            return Some(ArtifactSetName::TravelingDoctor);
        }
        if is_prayers_for_wisdom_piece_exec(name) {
            return Some(ArtifactSetName::PrayersForWisdom);
        }
        if is_prayers_to_springtime_piece_exec(name) {
            return Some(ArtifactSetName::PrayersToSpringtime);
        }
        if is_prayers_for_illumination_piece_exec(name) {
            return Some(ArtifactSetName::PrayersForIllumination);
        }
        if is_prayers_for_destiny_piece_exec(name) {
            return Some(ArtifactSetName::PrayersForDestiny);
        }
        if is_gladiator_finale_piece_exec(name) {
            return Some(ArtifactSetName::GladiatorFinale);
        }
        if is_wanderer_troupe_piece_exec(name) {
            return Some(ArtifactSetName::WandererTroupe);
        }
        if is_viridescent_venerer_piece_exec(name) {
            return Some(ArtifactSetName::ViridescentVenerer);
        }
        if is_maiden_beloved_piece_exec(name) {
            return Some(ArtifactSetName::MaidenBeloved);
        }
        if is_crimson_witch_piece_exec(name) {
            return Some(ArtifactSetName::CrimsonWitch);
        }
        if is_thundering_fury_piece_exec(name) {
            return Some(ArtifactSetName::ThunderingFury);
        }
        if is_thunder_smoother_piece_exec(name) {
            return Some(ArtifactSetName::ThunderSmoother);
        }
        if is_lava_walker_piece_exec(name) {
            return Some(ArtifactSetName::LavaWalker);
        }
        if is_bloodstained_chivalry_piece_exec(name) {
            return Some(ArtifactSetName::BloodstainedChivalry);
        }
        if is_noblesse_oblige_piece_exec(name) {
            return Some(ArtifactSetName::NoblesseOblige);
        }
        if is_archaic_petra_piece_exec(name) {
            return Some(ArtifactSetName::ArchaicPetra);
        }
        if is_retracing_bolide_piece_exec(name) {
            return Some(ArtifactSetName::RetracingBolide);
        }
        if is_blizzard_strayer_piece_exec(name) {
            return Some(ArtifactSetName::BlizzardStrayer);
        }
        if is_heart_of_depth_piece_exec(name) {
            return Some(ArtifactSetName::HeartOfDepth);
        }
        if is_pale_flame_piece_exec(name) {
            return Some(ArtifactSetName::PaleFlame);
        }
        if is_tenacity_of_the_millelith_piece_exec(name) {
            return Some(ArtifactSetName::TenacityOfTheMillelith);
        }
        if is_emblem_of_severed_fate_piece_exec(name) {
            return Some(ArtifactSetName::EmblemOfSeveredFate);
        }
        if is_shimenawa_reminiscence_piece_exec(name) {
            return Some(ArtifactSetName::ShimenawaReminiscence);
        }
        if is_husk_of_opulent_dreams_piece_exec(name) {
            return Some(ArtifactSetName::HuskOfOpulentDreams);
        }
        if is_ocean_hued_clam_piece_exec(name) {
            return Some(ArtifactSetName::OceanHuedClam);
        }
        if is_vermillion_hereafter_piece_exec(name) {
            return Some(ArtifactSetName::VermillionHereafter);
        }
        if is_echoes_of_an_offering_piece_exec(name) {
            return Some(ArtifactSetName::EchoesOfAnOffering);
        }
        if is_deepwood_memories_piece_exec(name) {
            return Some(ArtifactSetName::DeepwoodMemories);
        }
        if is_gilded_dreams_piece_exec(name) {
            return Some(ArtifactSetName::GildedDreams);
        }
        if is_flower_of_paradise_lost_piece_exec(name) {
            return Some(ArtifactSetName::FlowerOfParadiseLost);
        }
        if is_desert_pavilion_chronicle_piece_exec(name) {
            return Some(ArtifactSetName::DesertPavilionChronicle);
        }
        if is_nymphs_dream_piece_exec(name) {
            return Some(ArtifactSetName::NymphsDream);
        }
        if is_vourukashas_glow_piece_exec(name) {
            return Some(ArtifactSetName::VourukashasGlow);
        }
        if is_marechaussee_hunter_piece_exec(name) {
            return Some(ArtifactSetName::MarechausseeHunter);
        }
        if is_golden_troupe_piece_exec(name) {
            return Some(ArtifactSetName::GoldenTroupe);
        }
        if is_song_of_days_past_piece_exec(name) {
            return Some(ArtifactSetName::SongOfDaysPast);
        }
        if is_nighttime_whispers_in_the_echoing_woods_piece_exec(name) {
            return Some(ArtifactSetName::NighttimeWhispersInTheEchoingWoods);
        }
        if is_fragment_of_harmonic_whimsy_piece_exec(name) {
            return Some(ArtifactSetName::FragmentOfHarmonicWhimsy);
        }
        if is_unfinished_reverie_piece_exec(name) {
            return Some(ArtifactSetName::UnfinishedReverie);
        }
        if is_scroll_of_the_hero_of_cinder_city_piece_exec(name) {
            return Some(ArtifactSetName::ScrollOfTheHeroOfCinderCity);
        }
        if is_obsidian_codex_piece_exec(name) {
            return Some(ArtifactSetName::ObsidianCodex);
        }
        if is_long_nights_oath_piece_exec(name) {
            return Some(ArtifactSetName::LongNightsOath);
        }
        if is_finale_of_the_deep_galleries_piece_exec(name) {
            return Some(ArtifactSetName::FinaleOfTheDeepGalleries);
        }
        None
    }
}

} // verus!
