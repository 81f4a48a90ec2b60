use rand::distributions::Alphanumeric;
use rand::rngs::StdRng;
use rand::Rng;
use rand::SeedableRng;
use vstd::prelude::*;
use vstd::string::*;

use crate::utils::decimal::{decimal_text, push_decimal};
use crate::utils::text::chars_of;

verus! {

/// The random number generator of the `rand` crate, `rand::rngs::StdRng`.
/// Nothing is known of its state.
#[verifier::external_type_specification]
#[verifier::external_body]
pub struct ExStdRng(StdRng);

/// A generator seeded with `seed` (`SeedableRng::seed_from_u64`).
#[verifier::external_body]
fn seeded_rng(seed: u64) -> (rng: StdRng) {
    StdRng::seed_from_u64(seed)
}

/// A number below `below`, drawn with `Rng::gen_range` on the range from
/// nought up to but without `below`. Trusted: the number lies in the range.
/// An empty range would panic.
#[verifier::external_body]
fn pick_below(rng: &mut StdRng, below: usize) -> (picked: usize)
    requires
        below > 0,
    ensures
        picked < below,
{
    rng.gen_range(0..below)
}

/// A number up to `most`, drawn with `Rng::gen_range` on the range from
/// nought up to and with `most`. Trusted: the number lies in the range.
#[verifier::external_body]
fn pick_up_to(rng: &mut StdRng, most: usize) -> (picked: usize)
    ensures
        picked <= most,
{
    rng.gen_range(0..=most)
}

/// A letter or a digit, drawn with `Rng::sample` from
/// `rand::distributions::Alphanumeric`. Trusted: the distribution gives the
/// letters `a` to `z` and `A` to `Z` and the digits.
#[verifier::external_body]
fn pick_alphanumeric(rng: &mut StdRng) -> (c: char)
    ensures
        is_alphanumeric(c),
{
    rng.sample(Alphanumeric) as char
}

/// Appends a character (`String::push`).
#[verifier::external_body]
fn push_char(out: &mut String, c: char)
    ensures
        final(out)@ == old(out)@.push(c),
{
    out.push(c)
}

/// Whether `c` is one of the letters `a` to `z` and `A` to `Z` or a digit.
pub open spec fn is_alphanumeric(c: char) -> bool {
    ('a' <= c && c <= 'z') || ('A' <= c && c <= 'Z') || ('0' <= c && c <= '9')
}

/// The characters that the labels of the stats are made of.
pub open spec fn label_alphabet() -> Seq<char> {
    "攻击力暴击率暴击伤害生命值防御力元素精通元素充能效率治疗加成火元素伤害加成水元素伤害加成雷元素伤害加成冰元素伤害加成风元素伤害加成岩元素伤害加成草元素伤害加成物理伤害加成"@
}

/// The signs that are neither letters nor digits.
pub open spec fn special_alphabet() -> Seq<char> {
    "!@#$%^&*()_+-=[]{}|;':\",./<>?~`"@
}

/// How a level is written in one of four forms: bare, after a plus sign,
/// after `Lv.`, and after the word for level.
pub open spec fn level_text(level: nat, form: nat) -> Seq<char> {
    if form == 0 {
        decimal_text(level)
    } else if form == 1 {
        "+"@ + decimal_text(level)
    } else if form == 2 {
        "Lv."@ + decimal_text(level)
    } else {
        "等级"@ + decimal_text(level)
    }
}

/// Writes a level in one of the four forms.
pub fn level_string(level: usize, form: usize) -> (text: String)
    ensures
        text@ == level_text(level as nat, form as nat),
{
    let mut text = if form == 0 {
        String::new()
    } else if form == 1 {
        String::from_str("+")
    } else if form == 2 {
        String::from_str("Lv.")
    } else {
        String::from_str("等级")
    };
    push_decimal(&mut text, level as u64);
    text
}

/// What kinds of random inputs to make, and how many.
#[derive(Debug, Clone, Copy, PartialEq, Eq)]
pub struct FuzzConfig {
    /// How many inputs to try.
    pub iterations: usize,
    /// The seed of the random numbers.
    pub seed: u64,
    /// The least and the greatest length of a random text.
    pub string_length_range: (usize, usize),
    /// Whether to make texts of the labels' characters.
    pub include_unicode: bool,
    /// Whether to make texts with signs.
    pub include_special_chars: bool,
}

impl FuzzConfig {
    /// The usual kinds: a thousand texts of one to a hundred characters, of
    /// every sort, from the seed forty-two.
    pub open spec fn usual() -> FuzzConfig {
        FuzzConfig {
            iterations: 1000,
            seed: 42,
            string_length_range: (1, 100),
            include_unicode: true,
            include_special_chars: true,
        }
    }
}

impl Default for FuzzConfig {
    fn default() -> (config: FuzzConfig)
        ensures
            config == FuzzConfig::usual(),
    {
        FuzzConfig {
            iterations: 1000,
            seed: 42,
            string_length_range: (1, 100),
            include_unicode: true,
            include_special_chars: true,
        }
    }
}

/// Makes random texts for the parsers.
pub struct FuzzDataGenerator {
    rng: StdRng,
    config: FuzzConfig,
}

impl FuzzDataGenerator {
    /// What the generator is to make.
    pub closed spec fn config(&self) -> FuzzConfig {
        self.config
    }

    /// A generator that starts from the seed of `config`.
    pub fn new(config: FuzzConfig) -> (generator: FuzzDataGenerator)
        ensures
            generator.config() == config,
    {
        FuzzDataGenerator { rng: seeded_rng(config.seed), config }
    }

    /// A generator of the usual kinds that starts from `seed`.
    pub fn with_seed(seed: u64) -> (generator: FuzzDataGenerator)
        ensures
            generator.config() == (FuzzConfig { seed, ..FuzzConfig::usual() }),
    {
        FuzzDataGenerator::new(
            FuzzConfig {
                iterations: 1000,
                seed,
                string_length_range: (1, 100),
                include_unicode: true,
                include_special_chars: true,
            },
        )
    }

    /// What the generator is to make.
    pub fn get_config(&self) -> (config: FuzzConfig)
        ensures
            config == self.config(),
    {
        self.config
    }

    /// The source of the generator's random numbers, as it stands.
    pub closed spec fn rng(&self) -> StdRng {
        self.rng
    }

    /// The random numbers, for draws that the generator does not make
    /// itself: the generator's own source, which it goes on with as the
    /// caller leaves it.
    pub fn rng_mut(&mut self) -> (rng: &mut StdRng)
        ensures
            *rng == old(self).rng(),
            final(self).rng() == *final(rng),
            final(self).config() == old(self).config(),
    {
        &mut self.rng
    }

    /// A text of `length` characters drawn from `alphabet`.
    fn draw_from(&mut self, alphabet: &str, length: usize, out: &mut String)
        requires
            alphabet@.len() > 0,
        ensures
            final(self).config() == old(self).config(),
            final(out)@.len() == old(out)@.len() + length,
            final(out)@.subrange(0, old(out)@.len() as int) == old(out)@,
            forall|i: int|
                old(out)@.len() <= i < final(out)@.len() ==> alphabet@.contains(
                    #[trigger] final(out)@[i],
                ),
    {
        let chars = chars_of(alphabet);
        let mut n: usize = 0;
        assert(out@.subrange(0, old(out)@.len() as int) =~= old(out)@);
        while n < length
            invariant
                n <= length,
                chars@ == alphabet@,
                chars@.len() > 0,
                self.config() == old(self).config(),
                out@.len() == old(out)@.len() + n,
                out@.subrange(0, old(out)@.len() as int) == old(out)@,
                forall|i: int|
                    old(out)@.len() <= i < out@.len() ==> alphabet@.contains(#[trigger] out@[i]),
            decreases length - n,
        {
            let k = pick_below(&mut self.rng, chars.len());
            let ghost before = out@;
            push_char(out, chars[k]);
            assert(out@.subrange(0, old(out)@.len() as int) =~= before.subrange(
                0,
                old(out)@.len() as int,
            ));
            assert forall|i: int| old(out)@.len() <= i < out@.len() implies alphabet@.contains(
                #[trigger] out@[i],
            ) by {
                if i == out@.len() - 1 {
                    assert(alphabet@[k as int] == out@[i]);
                } else {
                    assert(out@[i] == before[i]);
                }
            }
            n = n + 1;
        }
    }

    /// A text of `length` letters and digits.
    fn draw_alphanumeric(&mut self, length: usize, out: &mut String)
        ensures
            final(self).config() == old(self).config(),
            final(out)@.len() == old(out)@.len() + length,
            final(out)@.subrange(0, old(out)@.len() as int) == old(out)@,
            forall|i: int|
                old(out)@.len() <= i < final(out)@.len() ==> is_alphanumeric(
                    #[trigger] final(out)@[i],
                ),
    {
        let mut n: usize = 0;
        assert(out@.subrange(0, old(out)@.len() as int) =~= old(out)@);
        while n < length
            invariant
                n <= length,
                self.config() == old(self).config(),
                out@.len() == old(out)@.len() + n,
                out@.subrange(0, old(out)@.len() as int) == old(out)@,
                forall|i: int| old(out)@.len() <= i < out@.len() ==> is_alphanumeric(#[trigger] out@[i]),
            decreases length - n,
        {
            let c = pick_alphanumeric(&mut self.rng);
            let ghost before = out@;
            push_char(out, c);
            assert(out@.subrange(0, old(out)@.len() as int) =~= before.subrange(
                0,
                old(out)@.len() as int,
            ));
            assert forall|i: int| old(out)@.len() <= i < out@.len() implies is_alphanumeric(
                #[trigger] out@[i],
            ) by {
                if i < out@.len() - 1 {
                    assert(out@[i] == before[i]);
                }
            }
            n = n + 1;
        }
    }

    /// A text of `length` characters, each one of those that the labels of
    /// the stats are made of.
    pub fn generate_unicode_string(&mut self, length: usize) -> (text: String)
        ensures
            final(self).config() == old(self).config(),
            text@.len() == length,
            forall|i: int| 0 <= i < length ==> label_alphabet().contains(#[trigger] text@[i]),
    {
        let alphabet = "攻击力暴击率暴击伤害生命值防御力元素精通元素充能效率治疗加成火元素伤害加成水元素伤害加成雷元素伤害加成冰元素伤害加成风元素伤害加成岩元素伤害加成草元素伤害加成物理伤害加成";
        proof {
            reveal_strlit(
                "攻击力暴击率暴击伤害生命值防御力元素精通元素充能效率治疗加成火元素伤害加成水元素伤害加成雷元素伤害加成冰元素伤害加成风元素伤害加成岩元素伤害加成草元素伤害加成物理伤害加成",
            );
        }
        let mut text = String::new();
        self.draw_from(alphabet, length, &mut text);
        text
    }

    /// A text of `length` characters: letters and digits in its first half,
    /// rounded down, and signs after them.
    pub fn generate_special_char_string(&mut self, length: usize) -> (text: String)
        ensures
            final(self).config() == old(self).config(),
            text@.len() == length,
            forall|i: int| 0 <= i < length / 2 ==> is_alphanumeric(#[trigger] text@[i]),
            forall|i: int|
                length / 2 <= i < length ==> special_alphabet().contains(#[trigger] text@[i]),
    {
        proof {
            reveal_strlit("!@#$%^&*()_+-=[]{}|;':\",./<>?~`");
        }
        let mut text = String::new();
        self.draw_alphanumeric(length / 2, &mut text);
        let ghost first = text@;
        self.draw_from("!@#$%^&*()_+-=[]{}|;':\",./<>?~`", length - length / 2, &mut text);
        assert forall|i: int| 0 <= i < length / 2 implies is_alphanumeric(#[trigger] text@[i]) by {
            assert(text@.subrange(0, first.len() as int)[i] == first[i]);
        }
        text
    }

    /// A text of `length` letters and digits.
    pub fn generate_alphanumeric_string(&mut self, length: usize) -> (text: String)
        ensures
            final(self).config() == old(self).config(),
            text@.len() == length,
            forall|i: int| 0 <= i < length ==> is_alphanumeric(#[trigger] text@[i]),
    {
        let mut text = String::new();
        self.draw_alphanumeric(length, &mut text);
        text
    }

    /// A level from nought to twenty, written in one of the four forms.
    pub fn generate_level_string(&mut self) -> (text: String)
        ensures
            final(self).config() == old(self).config(),
            exists|level: nat, form: nat|
                level <= 20 && form < 4 && text@ == #[trigger] level_text(level, form),
    {
        let level = pick_up_to(&mut self.rng, 20);
        let form = pick_below(&mut self.rng, 4);
        let text = level_string(level, form);
        assert(text@ == level_text(level as nat, form as nat));
        text
    }
}

} // verus!
