use vstd::prelude::*;

use crate::artifact::artifact::ArtifactSlot;
use crate::utils::text::str_eq;

verus! {

/// Whether `name` is the name of a piece worn in this slot.
pub open spec fn is_flower_name(name: Seq<char>) -> bool {
    ||| name == "磐陀裂生之花"@
    ||| name == "历经风雪的思念"@
    ||| name == "染血的铁之心"@
    ||| name == "魔女的炎之花"@
    ||| name == "角斗士的留恋"@
    ||| name == "饰金胸花"@
    ||| name == "渡火者的决绝"@
    ||| name == "远方的少女之心"@
    ||| name == "宗室之花"@
    ||| name == "夏祭之花"@
    ||| name == "平雷之心"@
    ||| name == "雷鸟的怜悯"@
    ||| name == "野花记忆的绿野"@
    ||| name == "乐团的晨光"@
    ||| name == "战狂的蔷薇"@
    ||| name == "勇士的勋章"@
    ||| name == "守护之花"@
    ||| name == "流放者之花"@
    ||| name == "赌徒的胸花"@
    ||| name == "教官的胸花"@
    ||| name == "武人的红花"@
    ||| name == "故人之心"@
    ||| name == "学士的书签"@
    ||| name == "奇迹之花"@
    ||| name == "冒险家之花"@
    ||| name == "幸运儿绿花"@
    ||| name == "游医的银莲"@
    ||| name == "勋绩之花"@
    ||| name == "无垢之花"@
    ||| name == "明威之镡"@
    ||| name == "羁缠之花"@
    ||| name == "荣花之期"@
    ||| name == "海染之花"@
    ||| name == "生灵之华"@
    ||| name == "魂香之花"@
    ||| name == "迷宫的游人"@
    ||| name == "梦中的铁花"@
    ||| name == "月女的华彩"@
    ||| name == "众王之都的开端"@
    ||| name == "旅途中的鲜花"@
    ||| name == "灵光源起之蕊"@
    ||| name == "猎人的胸花"@
    ||| name == "黄金乐曲的变奏"@
    ||| name == "昔时遗落之誓"@
    ||| name == "无私的妆饰花"@
    ||| name == "谐律交响的前奏"@
    ||| name == "暗结的明花"@
    ||| name == "驯兽师的护符"@
    ||| name == "异种的期许"@
    ||| name == "执灯人的誓言"@
    ||| name == "深廊的回奏之歌"@
}

fn is_flower_name_exec(name: &str) -> (found: bool)
    ensures
        found == is_flower_name(name@),
{
    if str_eq(name, "磐陀裂生之花") {
        return true;
    }
    if str_eq(name, "历经风雪的思念") {
        return true;
    }
    if str_eq(name, "染血的铁之心") {
        return true;
    }
    if str_eq(name, "魔女的炎之花") {
        return true;
    }
    if str_eq(name, "角斗士的留恋") {
        return true;
    }
    if str_eq(name, "饰金胸花") {
        return true;
    }
    if str_eq(name, "渡火者的决绝") {
        return true;
    }
    if str_eq(name, "远方的少女之心") {
        return true;
    }
    if str_eq(name, "宗室之花") {
        return true;
    }
    if str_eq(name, "夏祭之花") {
        return true;
    }
    if str_eq(name, "平雷之心") {
        return true;
    }
    if str_eq(name, "雷鸟的怜悯") {
        return true;
    }
    if str_eq(name, "野花记忆的绿野") {
        return true;
    }
    if str_eq(name, "乐团的晨光") {
        return true;
    }
    if str_eq(name, "战狂的蔷薇") {
        return true;
    }
    if str_eq(name, "勇士的勋章") {
        return true;
    }
    if str_eq(name, "守护之花") {
        return true;
    }
    if str_eq(name, "流放者之花") {
        return true;
    }
    if str_eq(name, "赌徒的胸花") {
        return true;
    }
    if str_eq(name, "教官的胸花") {
        return true;
    }
    if str_eq(name, "武人的红花") {
        return true;
    }
    if str_eq(name, "故人之心") {
        return true;
    }
    if str_eq(name, "学士的书签") {
        return true;
    }
    if str_eq(name, "奇迹之花") {
        return true;
    }
    if str_eq(name, "冒险家之花") {
        return true;
    }
    if str_eq(name, "幸运儿绿花") {
        return true;
    }
    if str_eq(name, "游医的银莲") {
        return true;
    }
    if str_eq(name, "勋绩之花") {
        return true;
    }
    if str_eq(name, "无垢之花") {
        return true;
    }
    if str_eq(name, "明威之镡") {
        return true;
    }
    if str_eq(name, "羁缠之花") {
        return true;
    }
    if str_eq(name, "荣花之期") {
        return true;
    }
    if str_eq(name, "海染之花") {
        return true;
    }
    if str_eq(name, "生灵之华") {
        return true;
    }
    if str_eq(name, "魂香之花") {
        return true;
    }
    if str_eq(name, "迷宫的游人") {
        return true;
    }
    if str_eq(name, "梦中的铁花") {
        return true;
    }
    if str_eq(name, "月女的华彩") {
        return true;
    }
    if str_eq(name, "众王之都的开端") {
        return true;
    }
    if str_eq(name, "旅途中的鲜花") {
        return true;
    }
    if str_eq(name, "灵光源起之蕊") {
        return true;
    }
    if str_eq(name, "猎人的胸花") {
        return true;
    }
    if str_eq(name, "黄金乐曲的变奏") {
        return true;
    }
    if str_eq(name, "昔时遗落之誓") {
        return true;
    }
    if str_eq(name, "无私的妆饰花") {
        return true;
    }
    if str_eq(name, "谐律交响的前奏") {
        return true;
    }
    if str_eq(name, "暗结的明花") {
        return true;
    }
    if str_eq(name, "驯兽师的护符") {
        return true;
    }
    if str_eq(name, "异种的期许") {
        return true;
    }
    if str_eq(name, "执灯人的誓言") {
        return true;
    }
    if str_eq(name, "深廊的回奏之歌") {
        return true;
    }
    false
}

/// Whether `name` is the name of a piece worn in this slot.
pub open spec fn is_feather_name(name: Seq<char>) -> bool {
    ||| name == "嵯峨群峰之翼"@
    ||| name == "摧冰而行的执望"@
    ||| name == "染血的黑之羽"@
    ||| name == "魔女常燃之羽"@
    ||| name == "角斗士的归宿"@
    ||| name == "追忆之风"@
    ||| name == "渡火者的解脱"@
    ||| name == "少女飘摇的思念"@
    ||| name == "宗室之翎"@
    ||| name == "夏祭终末"@
    ||| name == "平雷之羽"@
    ||| name == "雷灾的孑遗"@
    ||| name == "猎人青翠的箭羽"@
    ||| name == "琴师的箭羽"@
    ||| name == "战狂的翎羽"@
    ||| name == "勇士的期许"@
    ||| name == "守护徽印"@
    ||| name == "流放者之羽"@
    ||| name == "赌徒的羽饰"@
    ||| name == "教官的羽饰"@
    ||| name == "武人的羽饰"@
    ||| name == "归乡之羽"@
    ||| name == "学士的羽笔"@
    ||| name == "奇迹之羽"@
    ||| name == "冒险家尾羽"@
    ||| name == "幸运儿鹰羽"@
    ||| name == "游医的枭羽"@
    ||| name == "昭武翎羽"@
    ||| name == "贤医之羽"@
    ||| name == "切落之羽"@
    ||| name == "思忆之矢"@
    ||| name == "华馆之羽"@
    ||| name == "渊宫之羽"@
    ||| name == "潜光片羽"@
    ||| name == "垂玉之叶"@
    ||| name == "翠蔓的智者"@
    ||| name == "裁断的翎羽"@
    ||| name == "谢落的筵席"@
    ||| name == "黄金邦国的结末"@
    ||| name == "坏巫师的羽杖"@
    ||| name == "琦色灵彩之羽"@
    ||| name == "杰作的序曲"@
    ||| name == "黄金飞鸟的落羽"@
    ||| name == "昔时浮想之思"@
    ||| name == "诚恳的蘸水笔"@
    ||| name == "古海玄幽的夜想"@
    ||| name == "褪光的翠尾"@
    ||| name == "巡山客的信标"@
    ||| name == "灵髓的根脉"@
    ||| name == "夜鸣莺的尾羽"@
    ||| name == "深廊的漫远之约"@
}

fn is_feather_name_exec(name: &str) -> (found: bool)
    ensures
        found == is_feather_name(name@),
{
    if str_eq(name, "嵯峨群峰之翼") {
        return true;
    }
    if str_eq(name, "摧冰而行的执望") {
        return true;
    }
    if str_eq(name, "染血的黑之羽") {
        return true;
    }
    if str_eq(name, "魔女常燃之羽") {
        return true;
    }
    if str_eq(name, "角斗士的归宿") {
        return true;
    }
    if str_eq(name, "追忆之风") {
        return true;
    }
    if str_eq(name, "渡火者的解脱") {
        return true;
    }
    if str_eq(name, "少女飘摇的思念") {
        return true;
    }
    if str_eq(name, "宗室之翎") {
        return true;
    }
    if str_eq(name, "夏祭终末") {
        return true;
    }
    if str_eq(name, "平雷之羽") {
        return true;
    }
    if str_eq(name, "雷灾的孑遗") {
        return true;
    }
    if str_eq(name, "猎人青翠的箭羽") {
        return true;
    }
    if str_eq(name, "琴师的箭羽") {
        return true;
    }
    if str_eq(name, "战狂的翎羽") {
        return true;
    }
    if str_eq(name, "勇士的期许") {
        return true;
    }
    if str_eq(name, "守护徽印") {
        return true;
    }
    if str_eq(name, "流放者之羽") {
        return true;
    }
    if str_eq(name, "赌徒的羽饰") {
        return true;
    }
    if str_eq(name, "教官的羽饰") {
        return true;
    }
    if str_eq(name, "武人的羽饰") {
        return true;
    }
    if str_eq(name, "归乡之羽") {
        return true;
    }
    if str_eq(name, "学士的羽笔") {
        return true;
    }
    if str_eq(name, "奇迹之羽") {
        return true;
    }
    if str_eq(name, "冒险家尾羽") {
        return true;
    }
    if str_eq(name, "幸运儿鹰羽") {
        return true;
    }
    if str_eq(name, "游医的枭羽") {
        return true;
    }
    if str_eq(name, "昭武翎羽") {
        return true;
    }
    if str_eq(name, "贤医之羽") {
        return true;
    }
    if str_eq(name, "切落之羽") {
        return true;
    }
    if str_eq(name, "思忆之矢") {
        return true;
    }
    if str_eq(name, "华馆之羽") {
        return true;
    }
    if str_eq(name, "渊宫之羽") {
        return true;
    }
    if str_eq(name, "潜光片羽") {
        return true;
    }
    if str_eq(name, "垂玉之叶") {
        return true;
    }
    if str_eq(name, "翠蔓的智者") {
        return true;
    }
    if str_eq(name, "裁断的翎羽") {
        return true;
    }
    if str_eq(name, "谢落的筵席") {
        return true;
    }
    if str_eq(name, "黄金邦国的结末") {
        return true;
    }
    if str_eq(name, "坏巫师的羽杖") {
        return true;
    }
    if str_eq(name, "琦色灵彩之羽") {
        return true;
    }
    if str_eq(name, "杰作的序曲") {
        return true;
    }
    if str_eq(name, "黄金飞鸟的落羽") {
        return true;
    }
    if str_eq(name, "昔时浮想之思") {
        return true;
    }
    if str_eq(name, "诚恳的蘸水笔") {
        return true;
    }
    if str_eq(name, "古海玄幽的夜想") {
        return true;
    }
    if str_eq(name, "褪光的翠尾") {
        return true;
    }
    if str_eq(name, "巡山客的信标") {
        return true;
    }
    if str_eq(name, "灵髓的根脉") {
        return true;
    }
    if str_eq(name, "夜鸣莺的尾羽") {
        return true;
    }
    if str_eq(name, "深廊的漫远之约") {
        return true;
    }
    false
}

/// Whether `name` is the name of a piece worn in this slot.
pub open spec fn is_sand_name(name: Seq<char>) -> bool {
    ||| name == "星罗圭壁之晷"@
    ||| name == "星罗圭璧之晷"@
    ||| name == "冰雪故园的终期"@
    ||| name == "骑士染血之时"@
    ||| name == "魔女破灭之时"@
    ||| name == "角斗士的希冀"@
    ||| name == "坚铜罗盘"@
    ||| name == "渡火者的煎熬"@
    ||| name == "少女苦短的良辰"@
    ||| name == "宗室时计"@
    ||| name == "夏祭之刻"@
    ||| name == "平雷之刻"@
    ||| name == "雷霆的时计"@
    ||| name == "翠绿猎人的笃定"@
    ||| name == "终幕的时计"@
    ||| name == "终末的时计"@
    ||| name == "战狂的时计"@
    ||| name == "勇士的坚毅"@
    ||| name == "守护座钟"@
    ||| name == "流放者怀表"@
    ||| name == "赌徒的怀表"@
    ||| name == "教官的怀表"@
    ||| name == "武人的水漏"@
    ||| name == "逐光之石"@
    ||| name == "学士的时钟"@
    ||| name == "奇迹之沙"@
    ||| name == "冒险家怀表"@
    ||| name == "幸运儿沙漏"@
    ||| name == "游医的怀钟"@
    ||| name == "金铜时晷"@
    ||| name == "停摆之刻"@
    ||| name == "雷云之笼"@
    ||| name == "朝露之时"@
    ||| name == "众生之谣"@
    ||| name == "离别之贝"@
    ||| name == "阳辔之遗"@
    ||| name == "祝祀之凭"@
    ||| name == "贤智的定期"@
    ||| name == "沉金的岁月"@
    ||| name == "凝结的时刻"@
    ||| name == "失落迷途的机芯"@
    ||| name == "水仙的时时刻刻"@
    ||| name == "久远花落之时"@
    ||| name == "裁判的时刻"@
    ||| name == "黄金时代的先声"@
    ||| name == "昔时回映之音"@
    ||| name == "忠实的砂时计"@
    ||| name == "命途轮转的谐谑"@
    ||| name == "举业的识刻"@
    ||| name == "秘术家的金盘"@
    ||| name == "夜域的迷思"@
    ||| name == "不死者的哀铃"@
    ||| name == "深廊的湮落之刻"@
}

fn is_sand_name_exec(name: &str) -> (found: bool)
    ensures
        found == is_sand_name(name@),
{
    if str_eq(name, "星罗圭壁之晷") {
        return true;
    }
    if str_eq(name, "星罗圭璧之晷") {
        return true;
    }
    if str_eq(name, "冰雪故园的终期") {
        return true;
    }
    if str_eq(name, "骑士染血之时") {
        return true;
    }
    if str_eq(name, "魔女破灭之时") {
        return true;
    }
    if str_eq(name, "角斗士的希冀") {
        return true;
    }
    if str_eq(name, "坚铜罗盘") {
        return true;
    }
    if str_eq(name, "渡火者的煎熬") {
        return true;
    }
    if str_eq(name, "少女苦短的良辰") {
        return true;
    }
    if str_eq(name, "宗室时计") {
        return true;
    }
    if str_eq(name, "夏祭之刻") {
        return true;
    }
    if str_eq(name, "平雷之刻") {
        return true;
    }
    if str_eq(name, "雷霆的时计") {
        return true;
    }
    if str_eq(name, "翠绿猎人的笃定") {
        return true;
    }
    if str_eq(name, "终幕的时计") {
        return true;
    }
    if str_eq(name, "终末的时计") {
        return true;
    }
    if str_eq(name, "战狂的时计") {
        return true;
    }
    if str_eq(name, "勇士的坚毅") {
        return true;
    }
    if str_eq(name, "守护座钟") {
        return true;
    }
    if str_eq(name, "流放者怀表") {
        return true;
    }
    if str_eq(name, "赌徒的怀表") {
        return true;
    }
    if str_eq(name, "教官的怀表") {
        return true;
    }
    if str_eq(name, "武人的水漏") {
        return true;
    }
    if str_eq(name, "逐光之石") {
        return true;
    }
    if str_eq(name, "学士的时钟") {
        return true;
    }
    if str_eq(name, "奇迹之沙") {
        return true;
    }
    if str_eq(name, "冒险家怀表") {
        return true;
    }
    if str_eq(name, "幸运儿沙漏") {
        return true;
    }
    if str_eq(name, "游医的怀钟") {
        return true;
    }
    if str_eq(name, "金铜时晷") {
        return true;
    }
    if str_eq(name, "停摆之刻") {
        return true;
    }
    if str_eq(name, "雷云之笼") {
        return true;
    }
    if str_eq(name, "朝露之时") {
        return true;
    }
    if str_eq(name, "众生之谣") {
        return true;
    }
    if str_eq(name, "离别之贝") {
        return true;
    }
    if str_eq(name, "阳辔之遗") {
        return true;
    }
    if str_eq(name, "祝祀之凭") {
        return true;
    }
    if str_eq(name, "贤智的定期") {
        return true;
    }
    if str_eq(name, "沉金的岁月") {
        return true;
    }
    if str_eq(name, "凝结的时刻") {
        return true;
    }
    if str_eq(name, "失落迷途的机芯") {
        return true;
    }
    if str_eq(name, "水仙的时时刻刻") {
        return true;
    }
    if str_eq(name, "久远花落之时") {
        return true;
    }
    if str_eq(name, "裁判的时刻") {
        return true;
    }
    if str_eq(name, "黄金时代的先声") {
        return true;
    }
    if str_eq(name, "昔时回映之音") {
        return true;
    }
    if str_eq(name, "忠实的砂时计") {
        return true;
    }
    if str_eq(name, "命途轮转的谐谑") {
        return true;
    }
    if str_eq(name, "举业的识刻") {
        return true;
    }
    if str_eq(name, "秘术家的金盘") {
        return true;
    }
    if str_eq(name, "夜域的迷思") {
        return true;
    }
    if str_eq(name, "不死者的哀铃") {
        return true;
    }
    if str_eq(name, "深廊的湮落之刻") {
        return true;
    }
    false
}

/// Whether `name` is the name of a piece worn in this slot.
pub open spec fn is_goblet_name(name: Seq<char>) -> bool {
    ||| name == "巉岩琢塑之樽"@
    ||| name == "遍结寒霜的傲骨"@
    ||| name == "染血骑士之杯"@
    ||| name == "魔女的心之火"@
    ||| name == "角斗士的酣醉"@
    ||| name == "沉波之盏"@
    ||| name == "渡火者的醒悟"@
    ||| name == "少女片刻的闲暇"@
    ||| name == "宗室银瓮"@
    ||| name == "夏祭水玉"@
    ||| name == "平雷之器"@
    ||| name == "降雷的凶兆"@
    ||| name == "翠绿猎人的容器"@
    ||| name == "吟游者之壶"@
    ||| name == "战狂的骨杯"@
    ||| name == "勇士的壮行"@
    ||| name == "守护之皿"@
    ||| name == "流放者之杯"@
    ||| name == "赌徒的骰盅"@
    ||| name == "教官的茶杯"@
    ||| name == "武人的酒杯"@
    ||| name == "异国之盏"@
    ||| name == "学士的墨杯"@
    ||| name == "奇迹之杯"@
    ||| name == "冒险家金杯"@
    ||| name == "幸运儿之杯"@
    ||| name == "游医的药壶"@
    ||| name == "盟誓金爵"@
    ||| name == "超越之盏"@
    ||| name == "绯花之壶"@
    ||| name == "祈望之心"@
    ||| name == "梦醒之瓢"@
    ||| name == "真珠之笼"@
    ||| name == "结契之刻"@
    ||| name == "涌泉之盏"@
    ||| name == "迷误者之灯"@
    ||| name == "如蜜的终宴"@
    ||| name == "守秘的魔瓶"@
    ||| name == "迷醉长梦的守护"@
    ||| name == "勇者们的茶会"@
    ||| name == "无边酣乐之筵"@
    ||| name == "遗忘的容器"@
    ||| name == "黄金之夜的喧嚣"@
    ||| name == "昔时应许之梦"@
    ||| name == "慷慨的墨水瓶"@
    ||| name == "灵露倾洒的狂诗"@
    ||| name == "筹谋的共樽"@
    ||| name == "游学者的爪杯"@
    ||| name == "纷争的前宴"@
    ||| name == "未吹响的号角"@
    ||| name == "深廊的饫赐之宴"@
}

fn is_goblet_name_exec(name: &str) -> (found: bool)
    ensures
        found == is_goblet_name(name@),
{
    if str_eq(name, "巉岩琢塑之樽") {
        return true;
    }
    if str_eq(name, "遍结寒霜的傲骨") {
        return true;
    }
    if str_eq(name, "染血骑士之杯") {
        return true;
    }
    if str_eq(name, "魔女的心之火") {
        return true;
    }
    if str_eq(name, "角斗士的酣醉") {
        return true;
    }
    if str_eq(name, "沉波之盏") {
        return true;
    }
    if str_eq(name, "渡火者的醒悟") {
        return true;
    }
    if str_eq(name, "少女片刻的闲暇") {
        return true;
    }
    if str_eq(name, "宗室银瓮") {
        return true;
    }
    if str_eq(name, "夏祭水玉") {
        return true;
    }
    if str_eq(name, "平雷之器") {
        return true;
    }
    if str_eq(name, "降雷的凶兆") {
        return true;
    }
    if str_eq(name, "翠绿猎人的容器") {
        return true;
    }
    if str_eq(name, "吟游者之壶") {
        return true;
    }
    if str_eq(name, "战狂的骨杯") {
        return true;
    }
    if str_eq(name, "勇士的壮行") {
        return true;
    }
    if str_eq(name, "守护之皿") {
        return true;
    }
    if str_eq(name, "流放者之杯") {
        return true;
    }
    if str_eq(name, "赌徒的骰盅") {
        return true;
    }
    if str_eq(name, "教官的茶杯") {
        return true;
    }
    if str_eq(name, "武人的酒杯") {
        return true;
    }
    if str_eq(name, "异国之盏") {
        return true;
    }
    if str_eq(name, "学士的墨杯") {
        return true;
    }
    if str_eq(name, "奇迹之杯") {
        return true;
    }
    if str_eq(name, "冒险家金杯") {
        return true;
    }
    if str_eq(name, "幸运儿之杯") {
        return true;
    }
    if str_eq(name, "游医的药壶") {
        return true;
    }
    if str_eq(name, "盟誓金爵") {
        return true;
    }
    if str_eq(name, "超越之盏") {
        return true;
    }
    if str_eq(name, "绯花之壶") {
        return true;
    }
    if str_eq(name, "祈望之心") {
        return true;
    }
    if str_eq(name, "梦醒之瓢") {
        return true;
    }
    if str_eq(name, "真珠之笼") {
        return true;
    }
    if str_eq(name, "结契之刻") {
        return true;
    }
    if str_eq(name, "涌泉之盏") {
        return true;
    }
    if str_eq(name, "迷误者之灯") {
        return true;
    }
    if str_eq(name, "如蜜的终宴") {
        return true;
    }
    if str_eq(name, "守秘的魔瓶") {
        return true;
    }
    if str_eq(name, "迷醉长梦的守护") {
        return true;
    }
    if str_eq(name, "勇者们的茶会") {
        return true;
    }
    if str_eq(name, "无边酣乐之筵") {
        return true;
    }
    if str_eq(name, "遗忘的容器") {
        return true;
    }
    if str_eq(name, "黄金之夜的喧嚣") {
        return true;
    }
    if str_eq(name, "昔时应许之梦") {
        return true;
    }
    if str_eq(name, "慷慨的墨水瓶") {
        return true;
    }
    if str_eq(name, "灵露倾洒的狂诗") {
        return true;
    }
    if str_eq(name, "筹谋的共樽") {
        return true;
    }
    if str_eq(name, "游学者的爪杯") {
        return true;
    }
    if str_eq(name, "纷争的前宴") {
        return true;
    }
    if str_eq(name, "未吹响的号角") {
        return true;
    }
    if str_eq(name, "深廊的饫赐之宴") {
        return true;
    }
    false
}

/// Whether `name` is the name of a piece worn in this slot.
pub open spec fn is_head_name(name: Seq<char>) -> bool {
    ||| name == "不动玄石之相"@
    ||| name == "破冰踏雪的回音"@
    ||| name == "染血的铁假面"@
    ||| name == "焦灼的魔女帽"@
    ||| name == "角斗士的凯旋"@
    ||| name == "酒渍船帽"@
    ||| name == "渡火者的智慧"@
    ||| name == "少女易逝的芳颜"@
    ||| name == "宗室面具"@
    ||| name == "夏祭之面"@
    ||| name == "平雷之冠"@
    ||| name == "唤雷的头冠"@
    ||| name == "翠绿的猎人之冠"@
    ||| name == "指挥的礼帽"@
    ||| name == "战狂的鬼面"@
    ||| name == "勇士的冠冕"@
    ||| name == "守护束带"@
    ||| name == "流放者头冠"@
    ||| name == "赌徒的耳环"@
    ||| name == "教官的帽子"@
    ||| name == "武人的头巾"@
    ||| name == "感别之冠"@
    ||| name == "学士的镜片"@
    ||| name == "奇迹耳坠"@
    ||| name == "冒险家头带"@
    ||| name == "幸运儿银冠"@
    ||| name == "游医的方巾"@
    ||| name == "将帅兜鍪"@
    ||| name == "嗤笑之面"@
    ||| name == "华饰之兜"@
    ||| name == "无常之面"@
    ||| name == "形骸之笠"@
    ||| name == "海祇之冠"@
    ||| name == "虺雷之姿"@
    ||| name == "浮溯之珏"@
    ||| name == "月桂的宝冠"@
    ||| name == "沙王的投影"@
    ||| name == "紫晶的花冠"@
    ||| name == "流沙贵嗣的遗宝"@
    ||| name == "恶龙的单片镜"@
    ||| name == "灵光明烁之心"@
    ||| name == "老兵的容颜"@
    ||| name == "黄金剧团的奖赏"@
    ||| name == "昔时传奏之诗"@
    ||| name == "慈爱的淑女帽"@
    ||| name == "异想零落的圆舞"@
    ||| name == "失冕的宝冠"@
    ||| name == "魔战士的羽面"@
    ||| name == "诸圣的礼冠"@
    ||| name == "被浸染的缨盔"@
    ||| name == "深廊的遂失之冕"@
    ||| name == "祭水礼冠"@
    ||| name == "祭火礼冠"@
    ||| name == "祭雷礼冠"@
    ||| name == "祭冰礼冠"@
}

fn is_head_name_exec(name: &str) -> (found: bool)
    ensures
        found == is_head_name(name@),
{
    if str_eq(name, "不动玄石之相") {
        return true;
    }
    if str_eq(name, "破冰踏雪的回音") {
        return true;
    }
    if str_eq(name, "染血的铁假面") {
        return true;
    }
    if str_eq(name, "焦灼的魔女帽") {
        return true;
    }
    if str_eq(name, "角斗士的凯旋") {
        return true;
    }
    if str_eq(name, "酒渍船帽") {
        return true;
    }
    if str_eq(name, "渡火者的智慧") {
        return true;
    }
    if str_eq(name, "少女易逝的芳颜") {
        return true;
    }
    if str_eq(name, "宗室面具") {
        return true;
    }
    if str_eq(name, "夏祭之面") {
        return true;
    }
    if str_eq(name, "平雷之冠") {
        return true;
    }
    if str_eq(name, "唤雷的头冠") {
        return true;
    }
    if str_eq(name, "翠绿的猎人之冠") {
        return true;
    }
    if str_eq(name, "指挥的礼帽") {
        return true;
    }
    if str_eq(name, "战狂的鬼面") {
        return true;
    }
    if str_eq(name, "勇士的冠冕") {
        return true;
    }
    if str_eq(name, "守护束带") {
        return true;
    }
    if str_eq(name, "流放者头冠") {
        return true;
    }
    if str_eq(name, "赌徒的耳环") {
        return true;
    }
    if str_eq(name, "教官的帽子") {
        return true;
    }
    if str_eq(name, "武人的头巾") {
        return true;
    }
    if str_eq(name, "感别之冠") {
        return true;
    }
    if str_eq(name, "学士的镜片") {
        return true;
    }
    if str_eq(name, "奇迹耳坠") {
        return true;
    }
    if str_eq(name, "冒险家头带") {
        return true;
    }
    if str_eq(name, "幸运儿银冠") {
        return true;
    }
    if str_eq(name, "游医的方巾") {
        return true;
    }
    if str_eq(name, "将帅兜鍪") {
        return true;
    }
    if str_eq(name, "嗤笑之面") {
        return true;
    }
    if str_eq(name, "华饰之兜") {
        return true;
    }
    if str_eq(name, "无常之面") {
        return true;
    }
    if str_eq(name, "形骸之笠") {
        return true;
    }
    if str_eq(name, "海祇之冠") {
        return true;
    }
    if str_eq(name, "虺雷之姿") {
        return true;
    }
    if str_eq(name, "浮溯之珏") {
        return true;
    }
    if str_eq(name, "月桂的宝冠") {
        return true;
    }
    if str_eq(name, "沙王的投影") {
        return true;
    }
    if str_eq(name, "紫晶的花冠") {
        return true;
    }
    if str_eq(name, "流沙贵嗣的遗宝") {
        return true;
    }
    if str_eq(name, "恶龙的单片镜") {
        return true;
    }
    if str_eq(name, "灵光明烁之心") {
        return true;
    }
    if str_eq(name, "老兵的容颜") {
        return true;
    }
    if str_eq(name, "黄金剧团的奖赏") {
        return true;
    }
    if str_eq(name, "昔时传奏之诗") {
        return true;
    }
    if str_eq(name, "慈爱的淑女帽") {
        return true;
    }
    if str_eq(name, "异想零落的圆舞") {
        return true;
    }
    if str_eq(name, "失冕的宝冠") {
        return true;
    }
    if str_eq(name, "魔战士的羽面") {
        return true;
    }
    if str_eq(name, "诸圣的礼冠") {
        return true;
    }
    if str_eq(name, "被浸染的缨盔") {
        return true;
    }
    if str_eq(name, "深廊的遂失之冕") {
        return true;
    }
    if str_eq(name, "祭水礼冠") {
        return true;
    }
    if str_eq(name, "祭火礼冠") {
        return true;
    }
    if str_eq(name, "祭雷礼冠") {
        return true;
    }
    if str_eq(name, "祭冰礼冠") {
        return true;
    }
    false
}

/// The slot in which the piece of the name `name` is worn.
pub open spec fn slot_of(name: Seq<char>) -> Option<ArtifactSlot> {
    if is_flower_name(name) {
        Some(ArtifactSlot::Flower)
    }     else if is_feather_name(name) {
        Some(ArtifactSlot::Feather)
    }     else if is_sand_name(name) {
        Some(ArtifactSlot::Sand)
    }     else if is_goblet_name(name) {
        Some(ArtifactSlot::Goblet)
    }     else if is_head_name(name) {
        Some(ArtifactSlot::Head)
    } else {
        None
    }
}

impl ArtifactSlot {
    /// The slot in which the piece of the name `name` is worn.
    pub fn from_zh_cn(name: &str) -> (slot: Option<ArtifactSlot>)
        ensures
            slot == slot_of(name@),
    {
        if is_flower_name_exec(name) {
            return Some(ArtifactSlot::Flower);
        }
        if is_feather_name_exec(name) {
            return Some(ArtifactSlot::Feather);
        }
        if is_sand_name_exec(name) {
            return Some(ArtifactSlot::Sand);
        }
        if is_goblet_name_exec(name) {
            return Some(ArtifactSlot::Goblet);
        }
        if is_head_name_exec(name) {
            return Some(ArtifactSlot::Head);
        }
        None
    }
}

} // verus!
