use std::borrow::Cow;

use regex::Regex;
use vstd::prelude::*;
use vstd::string::*;

use crate::utils::decimal::{parse_i32_from, parse_i32_spec, IntParseError};
use crate::utils::text::{chars_of, find_char, first_index, has_prefix, matches_at, str_eq};

verus! {

/// `s` without the characters that occur in `unwanted`.
pub open spec fn removing(s: Seq<char>, unwanted: Seq<char>) -> Seq<char>
    decreases s.len(),
{
    if s.len() == 0 {
        s
    } else if unwanted.contains(s.last()) {
        removing(s.drop_last(), unwanted)
    } else {
        removing(s.drop_last(), unwanted).push(s.last())
    }
}

/// Whether `pattern` occurs in `s`.
pub open spec fn contains_text(s: Seq<char>, pattern: Seq<char>) -> bool {
    exists|i: int| 0 <= i <= s.len() && has_prefix(#[trigger] s.skip(i), pattern)
}

/// What replacing every match of the regular expression `pattern` in
/// `haystack` by `replacement` gives; none where `pattern` is no regular
/// expression.
pub uninterp spec fn regex_replace_all(
    pattern: Seq<char>,
    haystack: Seq<char>,
    replacement: Seq<char>,
) -> Option<Seq<char>>;

/// Compiles `pattern` with `regex::Regex::new` and replaces every match in
/// `haystack` with `Regex::replace_all`.
///
/// Trusted: the result depends on the three texts alone; and the pattern
/// `[%,]` matches exactly the single characters `%` and `,`, so that
/// replacing its matches by nothing removes those characters and no other.
#[verifier::external_body]
pub(crate) fn replace_all_matches(
    pattern: &str,
    haystack: &str,
    replacement: &str,
) -> (replaced: Option<String>)
    ensures
        replaced matches Some(text) ==> regex_replace_all(pattern@, haystack@, replacement@)
            == Some(text@),
        replaced is None ==> regex_replace_all(pattern@, haystack@, replacement@) is None,
        replaced matches Some(text) ==> (pattern@ == "[%,]"@ && replacement@.len() == 0 ==> text@
            == removing(haystack@, seq!['%', ','])),
        replaced is None ==> !(pattern@ == "[%,]"@),
{
    match Regex::new(pattern) {
        Ok(re) => Some(re.replace_all(haystack, replacement).into_owned()),
        Err(_) => None,
    }
}

/// Whether `c` is among `chars`.
fn is_among(chars: &[char], c: char) -> (found: bool)
    ensures
        found == chars@.contains(c),
{
    let mut i: usize = 0;
    while i < chars.len()
        invariant
            i <= chars@.len(),
            forall|k: int| 0 <= k < i ==> chars@[k] != c,
        decreases chars@.len() - i,
    {
        if chars[i] == c {
            return true;
        }
        i = i + 1;
    }
    false
}

/// Whether `pattern` occurs among `chars`.
fn contains_chars(chars: &Vec<char>, pattern: &Vec<char>) -> (found: bool)
    ensures
        found == contains_text(chars@, pattern@),
{
    let mut i: usize = 0;
    let n = chars.len();
    while i <= chars.len()
        invariant
            i <= chars@.len() + 1,
            chars@.len() <= usize::MAX,
            forall|k: int| 0 <= k < i ==> !has_prefix(#[trigger] chars@.skip(k), pattern@),
        decreases chars@.len() + 1 - i,
    {
        if matches_at(chars, i, pattern) {
            return true;
        }
        if i == chars.len() {
            return false;
        }
        i = i + 1;
    }
    false
}

/// Why a text is no attribute.
#[derive(Debug, Clone, Copy, PartialEq, Eq, Structural)]
pub enum AttributeError {
    /// Two separators stand side by side.
    ConsecutiveSeparators,
    /// There is no separator, and so no value.
    MissingValue,
    /// Nothing stands before the separator.
    EmptyName,
    /// Nothing stands after the separator.
    EmptyValue,
}

impl AttributeError {
    /// What is wrong, in words.
    pub open spec fn message_text(self) -> Seq<char> {
        match self {
            AttributeError::ConsecutiveSeparators => "包含非法的连续分隔符"@,
            AttributeError::MissingValue => "缺少属性值"@,
            AttributeError::EmptyName => "属性名称不能为空"@,
            AttributeError::EmptyValue => "属性值不能为空"@,
        }
    }

    /// What is wrong, in words.
    pub fn message(self) -> (text: &'static str)
        ensures
            text@ == self.message_text(),
    {
        match self {
            AttributeError::ConsecutiveSeparators => "包含非法的连续分隔符",
            AttributeError::MissingValue => "缺少属性值",
            AttributeError::EmptyName => "属性名称不能为空",
            AttributeError::EmptyValue => "属性值不能为空",
        }
    }
}

/// An attribute taken apart: its name, the digits of its value, and whether
/// the value is a percentage.
#[derive(Debug, Clone, PartialEq, Eq)]
pub struct AttributeParts {
    pub name: String,
    /// The value without percent signs and commas.
    pub value_text: String,
    pub is_percentage: bool,
}

/// What taking an attribute apart gives, as plain values.
pub open spec fn split_attribute_spec(input: Seq<char>) -> Result<
    (Seq<char>, Seq<char>, bool),
    AttributeError,
> {
    let at = first_index(input, '+');
    if contains_text(input, "++"@) {
        Err(AttributeError::ConsecutiveSeparators)
    } else if at >= input.len() {
        Err(AttributeError::MissingValue)
    } else if at == 0 {
        Err(AttributeError::EmptyName)
    } else if at + 1 == input.len() {
        Err(AttributeError::EmptyValue)
    } else {
        Ok(
            (
                input.subrange(0, at),
                removing(input.skip(at + 1), seq!['%', ',']),
                input.skip(at + 1).contains('%'),
            ),
        )
    }
}

/// Why a text is no level.
#[derive(Debug, Clone, PartialEq, Eq)]
pub enum LevelFormatError {
    /// What follows the separator is no number.
    NotANumber { text: String, cause: IntParseError },
    /// The text is no number and holds no separator.
    NoSeparator { input: String },
}

impl LevelFormatError {
    /// What is wrong, in words.
    pub open spec fn message_text(&self) -> Seq<char> {
        match self {
            LevelFormatError::NotANumber { text, cause } => "无法解析等级 '"@ + text@ + "': "@
                + cause.message_text(),
            LevelFormatError::NoSeparator { input } => "等级格式无效: '"@ + input@ + "'"@,
        }
    }

    /// What is wrong, in words.
    pub fn message(&self) -> (text: String)
        ensures
            text@ == self.message_text(),
    {
        match self {
            LevelFormatError::NotANumber { text, cause } => {
                let mut out = String::from_str("无法解析等级 '");
                out.append(text.as_str());
                out.append("': ");
                out.append(cause.message());
                out
            },
            LevelFormatError::NoSeparator { input } => {
                let mut out = String::from_str("等级格式无效: '");
                out.append(input.as_str());
                out.append("'");
                out
            },
        }
    }
}

/// The level that a text denotes on the fast path: the text itself where it
/// is a number, else what follows its first plus sign.
pub open spec fn parse_level_fast_spec(input: Seq<char>) -> Option<int> {
    match parse_i32_spec(input) {
        Ok(v) => Some(v),
        Err(_) => if first_index(input, '+') < input.len() {
            match parse_i32_spec(input.skip(first_index(input, '+') + 1)) {
                Ok(v) => Some(v),
                Err(_) => None,
            }
        } else {
            None
        },
    }
}

/// Text work for the parsers.
#[derive(Debug, Clone, Copy, PartialEq, Eq, Structural)]
pub struct StringOptimizer;

impl StringOptimizer {
    pub fn new() -> (optimizer: StringOptimizer) {
        StringOptimizer
    }

    /// Takes an attribute such as `攻击力+46.6%` apart: the name before the
    /// first plus sign, the value after it without percent signs and commas,
    /// and whether the value holds a percent sign.
    pub fn split_attribute(&self, input: &str) -> (parts: Result<AttributeParts, AttributeError>)
        ensures
            match parts {
                Ok(p) => split_attribute_spec(input@) == Ok::<
                    (Seq<char>, Seq<char>, bool),
                    AttributeError,
                >((p.name@, p.value_text@, p.is_percentage)),
                Err(e) => split_attribute_spec(input@) == Err::<
                    (Seq<char>, Seq<char>, bool),
                    AttributeError,
                >(e),
            },
    {
        let chars = chars_of(input);
        let doubled = chars_of("++");
        if contains_chars(&chars, &doubled) {
            return Err(AttributeError::ConsecutiveSeparators);
        }
        let at = match find_char(&chars, '+') {
            Some(at) => at,
            None => {
                return Err(AttributeError::MissingValue);
            },
        };
        if at == 0 {
            return Err(AttributeError::EmptyName);
        }
        if at + 1 == chars.len() {
            return Err(AttributeError::EmptyValue);
        }
        let name = input.substring_char(0, at);
        let value = input.substring_char(at + 1, chars.len());
        assert(value@ =~= input@.skip(at + 1));
        let value_chars = chars_of(value);
        let is_percentage = is_among(value_chars.as_slice(), '%');
        proof {
            reveal_strlit("");
        }
        match replace_all_matches("[%,]", value, "") {
            Some(cleaned) => Ok(
                AttributeParts { name: name.to_owned(), value_text: cleaned, is_percentage },
            ),
            None => Err(AttributeError::EmptyValue),
        }
    }

    /// `input` without the characters of `chars_to_remove`: `input` itself,
    /// borrowed, where it holds none of them.
    pub fn fast_clean_string<'a>(&self, input: &'a str, chars_to_remove: &[char]) -> (cleaned:
        Cow<'a, str>)
        ensures
            cleaned@ == removing(input@, chars_to_remove@),
            cleaned is Borrowed <==> removing(input@, chars_to_remove@) == input@,
    {
        let chars = chars_of(input);
        let mut out = String::new();
        let mut removed_any = false;
        let mut i: usize = 0;
        assert(out@ =~= input@.subrange(0, 0));
        while i < chars.len()
            invariant
                i <= chars@.len(),
                chars@ == input@,
                out@ == removing(input@.subrange(0, i as int), chars_to_remove@),
                !removed_any ==> out@ == input@.subrange(0, i as int),
                removed_any ==> out@.len() < i,
                out@.len() <= i,
            decreases chars@.len() - i,
        {
            let ghost before = input@.subrange(0, i as int);
            assert(input@.subrange(0, i + 1).drop_last() =~= before);
            if is_among(chars_to_remove, chars[i]) {
                removed_any = true;
            } else {
                let piece = input.substring_char(i, i + 1);
                out.append(piece);
                assert(out@ =~= removing(before, chars_to_remove@).push(input@[i as int]));
                assert(input@.subrange(0, i + 1) =~= before.push(input@[i as int]));
            }
            i = i + 1;
        }
        assert(input@.subrange(0, chars@.len() as int) =~= input@);
        if removed_any {
            Cow::Owned(out)
        } else {
            Cow::Borrowed(input)
        }
    }

    /// Reads a level: a number, or a text with a plus sign and a number
    /// after it.
    pub fn parse_level_fast(&self, input: &str) -> (level: Result<i32, LevelFormatError>)
        ensures
            match level {
                Ok(v) => parse_level_fast_spec(input@) == Some(v as int),
                Err(_) => parse_level_fast_spec(input@) is None,
            },
            level matches Err(LevelFormatError::NoSeparator { input: text }) ==> text@ == input@
                && first_index(input@, '+') >= input@.len(),
            level matches Err(LevelFormatError::NotANumber { text, cause }) ==> text@
                == input@.skip(first_index(input@, '+') + 1) && parse_i32_spec(text@) == Err::<
                int,
                IntParseError,
            >(cause),
    {
        let chars = chars_of(input);
        assert(chars@.skip(0) =~= input@);
        match parse_i32_from(&chars, 0) {
            Ok(v) => {
                return Ok(v);
            },
            Err(_) => {},
        }
        match find_char(&chars, '+') {
            Some(at) => match parse_i32_from(&chars, at + 1) {
                Ok(v) => Ok(v),
                Err(cause) => {
                    let part = input.substring_char(at + 1, chars.len());
                    assert(part@ =~= input@.skip(at + 1));
                    Err(LevelFormatError::NotANumber { text: part.to_owned(), cause })
                },
            },
            None => Err(LevelFormatError::NoSeparator { input: input.to_owned() }),
        }
    }
}

impl Default for StringOptimizer {
    fn default() -> (optimizer: StringOptimizer) {
        StringOptimizer
    }
}

/// Reads a level: a number, or a text with a plus sign and a number after
/// it.
pub fn parse_level_optimized(input: &str) -> (level: Result<i32, LevelFormatError>)
    ensures
        match level {
            Ok(v) => parse_level_fast_spec(input@) == Some(v as int),
            Err(_) => parse_level_fast_spec(input@) is None,
        },
{
    StringOptimizer::new().parse_level_fast(input)
}

/// How often the text work took which path.
#[derive(Debug, Clone, Copy, PartialEq, Eq, Structural)]
pub struct StringProcessingStats {
    pub total_operations: usize,
    pub cache_hits: usize,
    pub cache_misses: usize,
    pub fast_path_usage: usize,
    pub slow_path_usage: usize,
}

/// The share `part / whole` in parts per million, rounded down; nought where
/// `whole` is nought.
pub open spec fn usage_ppm(part: nat, whole: nat) -> nat {
    if whole == 0 {
        0
    } else {
        (part * 1_000_000) / whole
    }
}

impl StringProcessingStats {
    /// The share of operations that the cache answered, in parts per
    /// million.
    pub fn cache_hit_rate(&self) -> (ppm: u128)
        ensures
            ppm == usage_ppm(self.cache_hits as nat, self.total_operations as nat),
    {
        if self.total_operations == 0 {
            0
        } else {
            (self.cache_hits as u128 * 1_000_000) / (self.total_operations as u128)
        }
    }

    /// The share of path choices that took the fast path, in parts per
    /// million.
    pub fn fast_path_rate(&self) -> (ppm: u128)
        ensures
            ppm == usage_ppm(
                self.fast_path_usage as nat,
                (self.fast_path_usage + self.slow_path_usage) as nat,
            ),
    {
        let path_operations: u128 = self.fast_path_usage as u128 + self.slow_path_usage as u128;
        if path_operations == 0 {
            0
        } else {
            (self.fast_path_usage as u128 * 1_000_000) / path_operations
        }
    }
}

impl Default for StringProcessingStats {
    fn default() -> (stats: StringProcessingStats)
        ensures
            stats == (StringProcessingStats {
                total_operations: 0,
                cache_hits: 0,
                cache_misses: 0,
                fast_path_usage: 0,
                slow_path_usage: 0,
            }),
    {
        StringProcessingStats {
            total_operations: 0,
            cache_hits: 0,
            cache_misses: 0,
            fast_path_usage: 0,
            slow_path_usage: 0,
        }
    }
}

/// Hands out one shared text for each text that it is given.
pub struct StringPool {
    pool: Vec<&'static str>,
}

/// Makes a text live for as long as the program runs (`String::into_boxed_str`,
/// then `Box::leak`). Trusted: the text that comes back holds the same
/// characters.
#[verifier::external_body]
fn leak_text(s: String) -> (text: &'static str)
    ensures
        text@ == s@,
{
    Box::leak(s.into_boxed_str())
}

impl StringPool {
    /// The texts that the pool holds.
    pub closed spec fn texts(&self) -> Seq<Seq<char>> {
        Seq::new(self.pool@.len(), |i: int| self.pool@[i]@)
    }

    /// A pool that holds nothing.
    pub fn new() -> (pool: StringPool)
        ensures
            pool.texts().len() == 0,
    {
        StringPool { pool: Vec::new() }
    }

    /// The pool's text that equals `s`: an older one where the pool holds
    /// it, else `s` itself, which joins the pool.
    pub fn intern(&mut self, s: String) -> (text: &'static str)
        ensures
            text@ == s@,
            old(self).texts().contains(s@) ==> final(self).texts() == old(self).texts(),
            !old(self).texts().contains(s@) ==> final(self).texts() == old(self).texts().push(s@),
    {
        let mut i: usize = 0;
        while i < self.pool.len()
            invariant
                i <= self.pool@.len(),
                self.pool == old(self).pool,
                forall|k: int| 0 <= k < i ==> self.texts()[k] != s@,
            decreases self.pool@.len() - i,
        {
            if str_eq(self.pool[i], s.as_str()) {
                assert(self.texts()[i as int] == s@);
                return self.pool[i];
            }
            i = i + 1;
        }
        let leaked = leak_text(s);
        self.pool.push(leaked);
        assert(self.texts() =~= old(self).texts().push(s@));
        leaked
    }
}

impl Default for StringPool {
    fn default() -> (pool: StringPool) {
        StringPool::new()
    }
}

} // verus!
