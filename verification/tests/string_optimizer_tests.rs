use std::borrow::Cow;

use furina::utils::decimal::{parse_i32_from, parse_u64_range, push_decimal, push_signed_decimal, IntParseError};
use furina::utils::string_optimizer::{
    parse_level_optimized, AttributeError, LevelFormatError, StringOptimizer, StringPool,
    StringProcessingStats,
};
use furina::utils::text::{chars_of, ends_with, find_char, replace_str, starts_with};

#[test]
fn test_fast_clean_string() {
    let optimizer = StringOptimizer::new();

    let clean_input = "clean_string";
    let result = optimizer.fast_clean_string(clean_input, &['%', ',']);
    assert!(matches!(result, Cow::Borrowed(_)));
    assert_eq!(result, "clean_string");

    let dirty_input = "dirty%string,with%chars";
    let result = optimizer.fast_clean_string(dirty_input, &['%', ',']);
    assert!(matches!(result, Cow::Owned(_)));
    assert_eq!(result, "dirtystringwithchars");
}

#[test]
fn test_level_parsing_fast() {
    let optimizer = StringOptimizer::new();

    assert_eq!(optimizer.parse_level_fast("20").unwrap(), 20);
    assert_eq!(optimizer.parse_level_fast("+15").unwrap(), 15);
    assert!(optimizer.parse_level_fast("invalid").is_err());
}

#[test]
fn the_fast_path_reads_what_follows_the_separator() {
    let optimizer = StringOptimizer::default();
    assert_eq!(optimizer.parse_level_fast("等级+16").unwrap(), 16);
    assert_eq!(optimizer.parse_level_fast("+-5").unwrap(), -5);
    assert_eq!(optimizer.parse_level_fast("-5").unwrap(), -5);
    assert_eq!(
        optimizer.parse_level_fast("invalid").unwrap_err(),
        LevelFormatError::NoSeparator { input: "invalid".to_string() }
    );
    assert_eq!(
        optimizer.parse_level_fast("invalid").unwrap_err().message(),
        "等级格式无效: 'invalid'"
    );
    let e = optimizer.parse_level_fast("a+b+1").unwrap_err();
    assert_eq!(
        e,
        LevelFormatError::NotANumber { text: "b+1".to_string(), cause: IntParseError::InvalidDigit }
    );
    assert_eq!(e.message(), "无法解析等级 'b+1': invalid digit found in string");
    assert_eq!(
        optimizer.parse_level_fast("x+").unwrap_err().message(),
        "无法解析等级 '': cannot parse integer from empty string"
    );
}

#[test]
fn string_optimizer_test_global_functions() {
    let level = parse_level_optimized("+16");
    assert!(level.is_ok());
    assert_eq!(level.unwrap(), 16);
}

#[test]
fn string_optimization_tests_test_global_functions() {
    let level = parse_level_optimized("+20");
    assert!(level.is_ok());
    assert_eq!(level.unwrap(), 20);
}

#[test]
fn string_optimizer_test_string_pool() {
    let mut pool = StringPool::new();

    let str1 = pool.intern("test_string".to_string());
    let str2 = pool.intern("test_string".to_string());

    assert!(std::ptr::eq(str1, str2));
}

#[test]
fn string_optimization_tests_test_string_pool() {
    let mut pool = StringPool::new();

    let str1 = pool.intern("测试字符串".to_string());
    let str2 = pool.intern("测试字符串".to_string());

    assert!(std::ptr::eq(str1, str2));
}

#[test]
fn the_pool_keeps_different_texts_apart() {
    let mut pool = StringPool::default();
    let a = pool.intern("a".to_string());
    let b = pool.intern("b".to_string());
    let again = pool.intern("a".to_string());
    assert_eq!(a, "a");
    assert_eq!(b, "b");
    assert!(std::ptr::eq(a, again));
    assert!(!std::ptr::eq(a, b));
}

#[test]
fn test_performance_stats() {
    let stats = StringProcessingStats {
        total_operations: 100,
        cache_hits: 80,
        cache_misses: 20,
        fast_path_usage: 70,
        slow_path_usage: 30,
    };

    assert_eq!(stats.cache_hit_rate(), 800_000);
    assert_eq!(stats.fast_path_rate(), 700_000);
    assert_eq!(StringProcessingStats::default().cache_hit_rate(), 0);
    assert_eq!(StringProcessingStats::default().fast_path_rate(), 0);
}

#[test]
fn test_cow_string_efficiency() {
    let optimizer = StringOptimizer::new();

    let untouched = "test_string_without_special_chars";
    let result = optimizer.fast_clean_string(untouched, &['%', ',', '!']);

    if let Cow::Borrowed(borrowed) = result {
        assert!(std::ptr::eq(borrowed.as_ptr(), untouched.as_ptr()));
    } else {
        panic!("期望返回借用的字符串");
    }
}

#[test]
fn test_zero_copy_string_cleanup() {
    let optimizer = StringOptimizer::new();

    let clean_str = "攻击力加成数值";
    let result = optimizer.fast_clean_string(clean_str, &['%', ',', '+']);

    match result {
        Cow::Borrowed(borrowed) => {
            assert!(std::ptr::eq(borrowed.as_ptr(), clean_str.as_ptr()));
        },
        Cow::Owned(_) => {
            panic!("期望零拷贝，但产生了新分配");
        },
    }

    let dirty_str = "攻击力+46.6%";
    let result = optimizer.fast_clean_string(dirty_str, &['%', '+']);

    match result {
        Cow::Borrowed(_) => {
            panic!("期望新分配，但使用了零拷贝");
        },
        Cow::Owned(cleaned) => {
            assert_eq!(cleaned, "攻击力46.6");
        },
    }
}

#[test]
fn attributes_are_taken_apart_at_the_first_separator() {
    let optimizer = StringOptimizer::new();
    let parts = optimizer.split_attribute("攻击力+46.6%").unwrap();
    assert_eq!(parts.name, "攻击力");
    assert_eq!(parts.value_text, "46.6");
    assert!(parts.is_percentage);

    let parts = optimizer.split_attribute("生命值+4,780").unwrap();
    assert_eq!(parts.name, "生命值");
    assert_eq!(parts.value_text, "4780");
    assert!(!parts.is_percentage);

    let parts = optimizer.split_attribute("元素精通+165").unwrap();
    assert_eq!(parts.value_text, "165");
    let parts = optimizer.split_attribute("a+1+2%,%").unwrap();
    assert_eq!(parts.name, "a");
    assert_eq!(parts.value_text, "1+2");
    assert!(parts.is_percentage);
    // Only the two signs are removed; a full-width percent sign stays.
    let parts = optimizer.split_attribute("a+1％").unwrap();
    assert_eq!(parts.value_text, "1％");
    assert!(!parts.is_percentage);
}

#[test]
fn attributes_of_a_wrong_form_are_told_apart() {
    let optimizer = StringOptimizer::new();
    assert_eq!(
        optimizer.split_attribute("攻击力++46").unwrap_err(),
        AttributeError::ConsecutiveSeparators
    );
    assert_eq!(optimizer.split_attribute("++").unwrap_err(), AttributeError::ConsecutiveSeparators);
    assert_eq!(optimizer.split_attribute("无效格式").unwrap_err(), AttributeError::MissingValue);
    assert_eq!(optimizer.split_attribute("").unwrap_err(), AttributeError::MissingValue);
    assert_eq!(optimizer.split_attribute("+46").unwrap_err(), AttributeError::EmptyName);
    assert_eq!(optimizer.split_attribute("攻击力+").unwrap_err(), AttributeError::EmptyValue);
    assert_eq!(optimizer.split_attribute("+").unwrap_err(), AttributeError::EmptyName);
    assert_eq!(AttributeError::ConsecutiveSeparators.message(), "包含非法的连续分隔符");
    assert_eq!(AttributeError::MissingValue.message(), "缺少属性值");
    assert_eq!(AttributeError::EmptyName.message(), "属性名称不能为空");
    assert_eq!(AttributeError::EmptyValue.message(), "属性值不能为空");
}

#[test]
fn texts_are_read_character_by_character() {
    assert_eq!(chars_of("暴击a"), vec!['暴', '击', 'a']);
    assert_eq!(chars_of(""), Vec::<char>::new());
    assert_eq!(find_char(&chars_of("等级+20+1"), '+'), Some(2));
    assert_eq!(find_char(&chars_of("等级"), '+'), None);
    assert!(starts_with("圣遗物 1/2", "圣遗物"));
    assert!(!starts_with("圣遗", "圣遗物"));
    assert!(starts_with("x", ""));
    assert!(ends_with("迪卢克已装备", "已装备"));
    assert!(!ends_with("装备", "已装备"));
    assert!(ends_with("", ""));
}

#[test]
fn every_occurrence_is_replaced_from_the_left() {
    assert_eq!(replace_str("aaa", "aa", "b"), "ba");
    assert_eq!(replace_str("abcabc", "bc", ""), "aa");
    assert_eq!(replace_str("abc", "x", "y"), "abc");
    assert_eq!(replace_str("", "x", "y"), "");
    assert_eq!(replace_str("暴击伤+1", "暴击伤", "暴击伤害"), "暴击伤害+1");
    assert_eq!(replace_str("xx", "x", "xx"), "xxxx");
}

#[test]
fn whole_numbers_are_read_as_the_language_reads_them() {
    let parse = |s: &str| parse_i32_from(&chars_of(s), 0);
    for (text, expected) in [
        ("0", "0".parse::<i32>()),
        ("+0", "+0".parse::<i32>()),
        ("-0", "-0".parse::<i32>()),
        ("42", "42".parse::<i32>()),
        ("-42", "-42".parse::<i32>()),
        ("2147483647", "2147483647".parse::<i32>()),
        ("-2147483648", "-2147483648".parse::<i32>()),
        ("0000000000000012", "0000000000000012".parse::<i32>()),
    ] {
        assert_eq!(parse(text).ok(), expected.ok(), "{text}");
    }
    for text in ["", "+", "-", "2147483648", "-2147483649", "1 ", " 1", "1.0", "١", "--1", "+-1", "1e3"]
    {
        assert!(text.parse::<i32>().is_err());
        assert!(parse(text).is_err(), "{text}");
    }
    assert_eq!(parse(""), Err(IntParseError::Empty));
    assert_eq!(parse("-"), Err(IntParseError::InvalidDigit));
    assert_eq!(parse("2147483648"), Err(IntParseError::PosOverflow));
    assert_eq!(parse("-2147483649"), Err(IntParseError::NegOverflow));
    assert_eq!(parse_i32_from(&chars_of("ab12"), 2), Ok(12));
    assert_eq!(parse_i32_from(&chars_of("ab"), 2), Err(IntParseError::Empty));
    assert_eq!(IntParseError::Empty.message(), "cannot parse integer from empty string");
    assert_eq!(IntParseError::NegOverflow.message(), "number too small to fit in target type");

    let unsigned = |s: &str| parse_u64_range(&chars_of(s), 0, s.chars().count());
    assert_eq!(unsigned("18446744073709551615"), Some(u64::MAX));
    assert_eq!(unsigned("18446744073709551616"), None);
    assert_eq!(unsigned("+7"), Some(7));
    assert_eq!(unsigned("-7"), None);
    assert_eq!(unsigned(""), None);
    assert_eq!(unsigned("+"), None);
    assert_eq!(parse_u64_range(&chars_of("ab123cd"), 2, 5), Some(123));
}

#[test]
fn numbers_are_written_in_decimal() {
    let write = |n: u64| {
        let mut s = String::from("n=");
        push_decimal(&mut s, n);
        s
    };
    assert_eq!(write(0), "n=0");
    assert_eq!(write(7), "n=7");
    assert_eq!(write(10), "n=10");
    assert_eq!(write(1_234_567_890), "n=1234567890");
    assert_eq!(write(u64::MAX), "n=18446744073709551615");
    let signed = |n: i64| {
        let mut s = String::new();
        push_signed_decimal(&mut s, n);
        s
    };
    assert_eq!(signed(-1), "-1");
    assert_eq!(signed(0), "0");
    assert_eq!(signed(i64::MIN), "-9223372036854775808");
    assert_eq!(signed(i64::MAX), "9223372036854775807");
}
