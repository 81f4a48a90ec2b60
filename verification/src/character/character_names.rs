use vstd::prelude::*;
use vstd::string::*;

use crate::utils::text::{chars_of, has_suffix, matches_at, str_eq};

verus! {

/// Whether `name` is the name of a character.
pub open spec fn is_character_name(name: Seq<char>) -> bool {
    ||| name == "安柏"@
    ||| name == "芭芭拉"@
    ||| name == "班尼特"@
    ||| name == "迪卢克"@
    ||| name == "菲谢尔"@
    ||| name == "凯亚"@
    ||| name == "丽莎"@
    ||| name == "米卡"@
    ||| name == "诺艾尔"@
    ||| name == "罗莎莉亚"@
    ||| name == "砂糖"@
    ||| name == "温迪"@
    ||| name == "优菈"@
    ||| name == "可莉"@
    ||| name == "琴"@
    ||| name == "迪奥娜"@
    ||| name == "雷泽"@
    ||| name == "莫娜"@
    ||| name == "阿贝多"@
    ||| name == "埃洛伊"@
    ||| name == "菲米尼"@
    ||| name == "林尼"@
    ||| name == "琳妮特"@
    ||| name == "北斗"@
    ||| name == "凝光"@
    ||| name == "重云"@
    ||| name == "甘雨"@
    ||| name == "胡桃"@
    ||| name == "刻晴"@
    ||| name == "七七"@
    ||| name == "申鹤"@
    ||| name == "辛焱"@
    ||| name == "行秋"@
    ||| name == "香菱"@
    ||| name == "魈"@
    ||| name == "烟绯"@
    ||| name == "夜兰"@
    ||| name == "云堇"@
    ||| name == "钟离"@
    ||| name == "白术"@
    ||| name == "闲云"@
    ||| name == "千织"@
    ||| name == "枫原万叶"@
    ||| name == "九条裟罗"@
    ||| name == "荒泷一斗"@
    ||| name == "久岐忍"@
    ||| name == "神里绫华"@
    ||| name == "神里绫人"@
    ||| name == "托马"@
    ||| name == "五郎"@
    ||| name == "宵宫"@
    ||| name == "早柚"@
    ||| name == "八重神子"@
    ||| name == "鹿野院平藏"@
    ||| name == "绮良良"@
    ||| name == "莱欧斯利"@
    ||| name == "那维莱特"@
    ||| name == "芙宁娜"@
    ||| name == "夏洛蒂"@
    ||| name == "坎蒂丝"@
    ||| name == "柯莱"@
    ||| name == "多莉"@
    ||| name == "纳西妲"@
    ||| name == "妮露"@
    ||| name == "赛诺"@
    ||| name == "提纳里"@
    ||| name == "迪希雅"@
    ||| name == "卡维"@
    ||| name == "莱依拉"@
    ||| name == "瑶瑶"@
    ||| name == "达达利亚"@
    ||| name == "戴因斯雷布"@
    ||| name == "派蒙"@
}

/// Whether `name` is the name of a character.
pub fn is_known_character(name: &str) -> (found: bool)
    ensures
        found == is_character_name(name@),
{
    if str_eq(name, "安柏") {
        return true;
    }
    if str_eq(name, "芭芭拉") {
        return true;
    }
    if str_eq(name, "班尼特") {
        return true;
    }
    if str_eq(name, "迪卢克") {
        return true;
    }
    if str_eq(name, "菲谢尔") {
        return true;
    }
    if str_eq(name, "凯亚") {
        return true;
    }
    if str_eq(name, "丽莎") {
        return true;
    }
    if str_eq(name, "米卡") {
        return true;
    }
    if str_eq(name, "诺艾尔") {
        return true;
    }
    if str_eq(name, "罗莎莉亚") {
        return true;
    }
    if str_eq(name, "砂糖") {
        return true;
    }
    if str_eq(name, "温迪") {
        return true;
    }
    if str_eq(name, "优菈") {
        return true;
    }
    if str_eq(name, "可莉") {
        return true;
    }
    if str_eq(name, "琴") {
        return true;
    }
    if str_eq(name, "迪奥娜") {
        return true;
    }
    if str_eq(name, "雷泽") {
        return true;
    }
    if str_eq(name, "莫娜") {
        return true;
    }
    if str_eq(name, "阿贝多") {
        return true;
    }
    if str_eq(name, "埃洛伊") {
        return true;
    }
    if str_eq(name, "菲米尼") {
        return true;
    }
    if str_eq(name, "林尼") {
        return true;
    }
    if str_eq(name, "琳妮特") {
        return true;
    }
    if str_eq(name, "北斗") {
        return true;
    }
    if str_eq(name, "凝光") {
        return true;
    }
    if str_eq(name, "重云") {
        return true;
    }
    if str_eq(name, "甘雨") {
        return true;
    }
    if str_eq(name, "胡桃") {
        return true;
    }
    if str_eq(name, "刻晴") {
        return true;
    }
    if str_eq(name, "七七") {
        return true;
    }
    if str_eq(name, "申鹤") {
        return true;
    }
    if str_eq(name, "辛焱") {
        return true;
    }
    if str_eq(name, "行秋") {
        return true;
    }
    if str_eq(name, "香菱") {
        return true;
    }
    if str_eq(name, "魈") {
        return true;
    }
    if str_eq(name, "烟绯") {
        return true;
    }
    if str_eq(name, "夜兰") {
        return true;
    }
    if str_eq(name, "云堇") {
        return true;
    }
    if str_eq(name, "钟离") {
        return true;
    }
    if str_eq(name, "白术") {
        return true;
    }
    if str_eq(name, "闲云") {
        return true;
    }
    if str_eq(name, "千织") {
        return true;
    }
    if str_eq(name, "枫原万叶") {
        return true;
    }
    if str_eq(name, "九条裟罗") {
        return true;
    }
    if str_eq(name, "荒泷一斗") {
        return true;
    }
    if str_eq(name, "久岐忍") {
        return true;
    }
    if str_eq(name, "神里绫华") {
        return true;
    }
    if str_eq(name, "神里绫人") {
        return true;
    }
    if str_eq(name, "托马") {
        return true;
    }
    if str_eq(name, "五郎") {
        return true;
    }
    if str_eq(name, "宵宫") {
        return true;
    }
    if str_eq(name, "早柚") {
        return true;
    }
    if str_eq(name, "八重神子") {
        return true;
    }
    if str_eq(name, "鹿野院平藏") {
        return true;
    }
    if str_eq(name, "绮良良") {
        return true;
    }
    if str_eq(name, "莱欧斯利") {
        return true;
    }
    if str_eq(name, "那维莱特") {
        return true;
    }
    if str_eq(name, "芙宁娜") {
        return true;
    }
    if str_eq(name, "夏洛蒂") {
        return true;
    }
    if str_eq(name, "坎蒂丝") {
        return true;
    }
    if str_eq(name, "柯莱") {
        return true;
    }
    if str_eq(name, "多莉") {
        return true;
    }
    if str_eq(name, "纳西妲") {
        return true;
    }
    if str_eq(name, "妮露") {
        return true;
    }
    if str_eq(name, "赛诺") {
        return true;
    }
    if str_eq(name, "提纳里") {
        return true;
    }
    if str_eq(name, "迪希雅") {
        return true;
    }
    if str_eq(name, "卡维") {
        return true;
    }
    if str_eq(name, "莱依拉") {
        return true;
    }
    if str_eq(name, "瑶瑶") {
        return true;
    }
    if str_eq(name, "达达利亚") {
        return true;
    }
    if str_eq(name, "戴因斯雷布") {
        return true;
    }
    if str_eq(name, "派蒙") {
        return true;
    }
    false
}

/// The character that an equip text names: the text without its last three
/// characters, where it ends in the words that tell that the item is worn
/// and what stands before them is the name of a character.
pub open spec fn equipped_by(equip: Seq<char>) -> Option<Seq<char>> {
    if has_suffix(equip, "已装备"@) && is_character_name(equip.subrange(0, equip.len() - 3)) {
        Some(equip.subrange(0, equip.len() - 3))
    } else {
        None
    }
}

/// The character that an equip text names, if it names one.
pub fn equipped_character(equip: &str) -> (name: Option<String>)
    ensures
        match name {
            Some(n) => equipped_by(equip@) == Some(n@),
            None => equipped_by(equip@) is None,
        },
{
    let chars = chars_of(equip);
    let marker = chars_of("已装备");
    proof {
        reveal_strlit("已装备");
    }
    if marker.len() > chars.len() {
        return None;
    }
    let at = chars.len() - marker.len();
    let worn = matches_at(&chars, at, &marker);
    assert(chars@.skip(at as int).subrange(0, marker@.len() as int) =~= chars@.subrange(
        chars@.len() - marker@.len(),
        chars@.len() as int,
    ));
    if !worn {
        return None;
    }
    let name = equip.substring_char(0, at);
    if is_known_character(name) {
        Some(name.to_owned())
    } else {
        None
    }
}

} // verus!
