use vstd::prelude::*;
use vstd::std_specs::cmp::PartialEqSpec;
use vstd::std_specs::cmp::PartialEqSpecImpl;

use crate::scanner::error::{ArtifactScanError, PPM};
use crate::utils::text::chars_of;

verus! {

/// What identifies a scanned item: the recognised fields, without the
/// failures met on the way and without the confidence.
pub struct ScanContent {
    pub name: Seq<char>,
    pub main_stat_name: Seq<char>,
    pub main_stat_value: Seq<char>,
    pub sub_stat: Seq<Seq<char>>,
    pub equip: Seq<char>,
    pub level: int,
    pub star: int,
    pub lock: bool,
}

/// One scanned item.
#[derive(Debug, Clone)]
pub struct GenshinArtifactScanResult {
    pub name: String,
    pub main_stat_name: String,
    pub main_stat_value: String,
    pub sub_stat: [String; 4],
    pub equip: String,
    pub level: i32,
    pub star: i32,
    pub lock: bool,
    /// The failures met while the item was scanned, as texts.
    pub scan_errors: Vec<String>,
    /// How far the record can be relied on, in parts per million.
    pub confidence_ppm: u32,
}

/// By how much a failure scales the confidence, in parts per million.
pub open spec fn penalty_ppm(error: &ArtifactScanError) -> nat {
    match error {
        ArtifactScanError::OcrRecognitionFailed { .. } => 800_000,
        ArtifactScanError::ArtifactParsingFailed { .. } => 700_000,
        ArtifactScanError::StarRecognitionFailed { .. } => 900_000,
        ArtifactScanError::LevelParsingFailed { .. } => 900_000,
        _ => 950_000,
    }
}

/// A confidence after one penalty: the product, rounded down.
pub open spec fn penalised(confidence_ppm: nat, factor_ppm: nat) -> nat {
    (confidence_ppm * factor_ppm) / 1_000_000
}

/// One step of the content hash.
pub open spec fn mix(h: u64, v: u64) -> u64 {
    ((h * 31 + v) % 0x1_0000_0000_0000_0000) as u64
}

/// The content hash carried over a run of characters.
pub open spec fn mix_chars(h: u64, s: Seq<char>) -> u64
    decreases s.len(),
{
    if s.len() == 0 {
        h
    } else {
        mix(mix_chars(h, s.drop_last()), s.last() as u64)
    }
}

/// The hash of a content: every field in turn, each closed by its length.
pub open spec fn content_hash_of(c: ScanContent) -> u64 {
    let h0 = mix(mix_chars(17, c.name), c.name.len() as u64);
    let h1 = mix(mix_chars(h0, c.main_stat_name), c.main_stat_name.len() as u64);
    let h2 = mix(mix_chars(h1, c.main_stat_value), c.main_stat_value.len() as u64);
    let h3 = mix(mix_chars(h2, c.sub_stat[0]), c.sub_stat[0].len() as u64);
    let h4 = mix(mix_chars(h3, c.sub_stat[1]), c.sub_stat[1].len() as u64);
    let h5 = mix(mix_chars(h4, c.sub_stat[2]), c.sub_stat[2].len() as u64);
    let h6 = mix(mix_chars(h5, c.sub_stat[3]), c.sub_stat[3].len() as u64);
    let h7 = mix(mix_chars(h6, c.equip), c.equip.len() as u64);
    let h8 = mix(h7, (c.level as i32) as u32 as u64);
    let h9 = mix(h8, (c.star as i32) as u32 as u64);
    mix(
        h9,
        if c.lock {
            1
        } else {
            0
        },
    )
}

fn mix_exec(h: u64, v: u64) -> (r: u64)
    ensures
        r == mix(h, v),
{
    (((h as u128) * 31 + (v as u128)) % 0x1_0000_0000_0000_0000u128) as u64
}

fn mix_field(h: u64, field: &str) -> (r: u64)
    ensures
        r == mix(mix_chars(h, field@), field@.len() as u64),
{
    let chars = chars_of(field);
    let mut acc = h;
    let mut i: usize = 0;
    while i < chars.len()
        invariant
            i <= chars@.len(),
            acc == mix_chars(h, chars@.subrange(0, i as int)),
        decreases chars@.len() - i,
    {
        assert(chars@.subrange(0, i + 1).drop_last() =~= chars@.subrange(0, i as int));
        acc = mix_exec(acc, chars[i] as u64);
        i = i + 1;
    }
    assert(chars@.subrange(0, chars@.len() as int) =~= chars@);
    mix_exec(acc, chars.len() as u64)
}

impl GenshinArtifactScanResult {
    /// The fields that identify the item.
    pub open spec fn content(&self) -> ScanContent {
        ScanContent {
            name: self.name@,
            main_stat_name: self.main_stat_name@,
            main_stat_value: self.main_stat_value@,
            sub_stat: Seq::new(4, |i: int| self.sub_stat@[i]@),
            equip: self.equip@,
            level: self.level as int,
            star: self.star as int,
            lock: self.lock,
        }
    }

    /// The texts of the failures recorded so far.
    pub open spec fn error_texts(&self) -> Seq<Seq<char>> {
        Seq::new(self.scan_errors@.len(), |i: int| self.scan_errors@[i]@)
    }

    /// Whether the confidence lies between nought and one.
    pub open spec fn wf(&self) -> bool {
        self.confidence_ppm <= PPM
    }

    /// A record of the given fields, with no failure and full confidence.
    pub fn new(
        name: String,
        main_stat_name: String,
        main_stat_value: String,
        sub_stat: [String; 4],
        equip: String,
        level: i32,
        star: i32,
        lock: bool,
    ) -> (result: GenshinArtifactScanResult)
        ensures
            result.name == name,
            result.main_stat_name == main_stat_name,
            result.main_stat_value == main_stat_value,
            result.sub_stat == sub_stat,
            result.equip == equip,
            result.level == level,
            result.star == star,
            result.lock == lock,
            result.scan_errors@.len() == 0,
            result.confidence_ppm == PPM,
            result.wf(),
    {
        GenshinArtifactScanResult {
            name,
            main_stat_name,
            main_stat_value,
            sub_stat,
            equip,
            level,
            star,
            lock,
            scan_errors: Vec::new(),
            confidence_ppm: PPM,
        }
    }

    /// Records a failure: its text is appended and the confidence is scaled
    /// by the penalty of its kind. The confidence never grows, and falls
    /// unless it was already zero.
    pub fn add_error(&mut self, error: &ArtifactScanError)
        ensures
            final(self).content() == old(self).content(),
            final(self).error_texts() == old(self).error_texts().push(error.message_text()),
            final(self).confidence_ppm == penalised(
                old(self).confidence_ppm as nat,
                penalty_ppm(error),
            ),
            final(self).confidence_ppm <= old(self).confidence_ppm,
            old(self).confidence_ppm > 0 ==> final(self).confidence_ppm < old(self).confidence_ppm,
            old(self).wf() ==> final(self).wf(),
    {
        let text = error.message();
        self.scan_errors.push(text);
        let factor: u64 = match error {
            ArtifactScanError::OcrRecognitionFailed { .. } => 800_000,
            ArtifactScanError::ArtifactParsingFailed { .. } => 700_000,
            ArtifactScanError::StarRecognitionFailed { .. } => 900_000,
            ArtifactScanError::LevelParsingFailed { .. } => 900_000,
            _ => 950_000,
        };
        let before: u64 = self.confidence_ppm as u64;
        let scaled: u64 = (before * factor) / 1_000_000;
        assert(scaled <= before && (before > 0 ==> scaled < before)) by (nonlinear_arith)
            requires
                scaled == (before * factor) / 1_000_000,
                0 < factor < 1_000_000,
                0 <= before,
        ;
        self.confidence_ppm = scaled as u32;
        assert(final(self).error_texts() =~= old(self).error_texts().push(error.message_text()));
        assert(final(self).content().sub_stat =~= old(self).content().sub_stat);
    }

    /// Whether any failure was recorded.
    pub fn has_errors(&self) -> (any: bool)
        ensures
            any == (self.scan_errors@.len() > 0),
    {
        self.scan_errors.len() > 0
    }

    /// How many failures were recorded.
    pub fn error_count(&self) -> (count: usize)
        ensures
            count == self.scan_errors@.len(),
    {
        self.scan_errors.len()
    }

    /// Whether the confidence reaches `threshold_ppm`.
    pub fn is_reliable(&self, threshold_ppm: u32) -> (reliable: bool)
        ensures
            reliable == (self.confidence_ppm >= threshold_ppm),
    {
        self.confidence_ppm >= threshold_ppm
    }

    /// Whether the two records describe the same item, whatever failures and
    /// confidence they carry.
    pub fn same_content(&self, other: &GenshinArtifactScanResult) -> (same: bool)
        ensures
            same == (self.content() == other.content()),
    {
        let same = self.name == other.name && self.main_stat_name == other.main_stat_name
            && self.main_stat_value == other.main_stat_value && self.sub_stat[0]
            == other.sub_stat[0] && self.sub_stat[1] == other.sub_stat[1] && self.sub_stat[2]
            == other.sub_stat[2] && self.sub_stat[3] == other.sub_stat[3] && self.equip
            == other.equip && self.level == other.level && self.star == other.star && self.lock
            == other.lock;
        proof {
            let a = self.content();
            let b = other.content();
            if same {
                assert(a.sub_stat =~= b.sub_stat);
            } else {
                if a == b {
                    assert(a.sub_stat[0] == b.sub_stat[0]);
                    assert(a.sub_stat[1] == b.sub_stat[1]);
                    assert(a.sub_stat[2] == b.sub_stat[2]);
                    assert(a.sub_stat[3] == b.sub_stat[3]);
                }
            }
        }
        same
    }

    /// A hash of the content: records with the same content get the same hash.
    pub fn content_hash(&self) -> (h: u64)
        ensures
            h == content_hash_of(self.content()),
    {
        let h0 = mix_field(17, self.name.as_str());
        let h1 = mix_field(h0, self.main_stat_name.as_str());
        let h2 = mix_field(h1, self.main_stat_value.as_str());
        let h3 = mix_field(h2, self.sub_stat[0].as_str());
        let h4 = mix_field(h3, self.sub_stat[1].as_str());
        let h5 = mix_field(h4, self.sub_stat[2].as_str());
        let h6 = mix_field(h5, self.sub_stat[3].as_str());
        let h7 = mix_field(h6, self.equip.as_str());
        let h8 = mix_exec(h7, self.level as u32 as u64);
        let h9 = mix_exec(h8, self.star as u32 as u64);
        mix_exec(
            h9,
            if self.lock {
                1
            } else {
                0
            },
        )
    }
}

impl PartialEq for GenshinArtifactScanResult {
    fn eq(&self, other: &GenshinArtifactScanResult) -> (same: bool) {
        self.same_content(other)
    }
}

impl PartialEqSpecImpl for GenshinArtifactScanResult {
    open spec fn obeys_eq_spec() -> bool {
        true
    }

    open spec fn eq_spec(&self, other: &GenshinArtifactScanResult) -> bool {
        self.content() == other.content()
    }
}

impl Eq for GenshinArtifactScanResult {

}

/// Feeds a number to a hasher (`Hasher::write_u64`).
#[verifier::external_body]
fn feed_u64<H: core::hash::Hasher>(state: &mut H, value: u64) {
    state.write_u64(value)
}

impl core::hash::Hash for GenshinArtifactScanResult {
    /// Feeds the content hash, and nothing else: records that are equal hash
    /// alike.
    fn hash<H: core::hash::Hasher>(&self, state: &mut H) {
        feed_u64(state, self.content_hash())
    }
}

/// Two records with the same content are equal and have the same content
/// hash, whatever failures and confidence each of them carries.
pub proof fn lemma_same_content_is_equal(
    a: GenshinArtifactScanResult,
    b: GenshinArtifactScanResult,
)
    requires
        a.content() == b.content(),
    ensures
        PartialEqSpec::eq_spec(&a, &b),
        PartialEqSpec::eq_spec(&b, &a),
        content_hash_of(a.content()) == content_hash_of(b.content()),
{
}

/// The confidence after any run of failures lies between nought and the
/// confidence before it.
pub open spec fn penalised_by_all(confidence_ppm: nat, factors: Seq<nat>) -> nat
    decreases factors.len(),
{
    if factors.len() == 0 {
        confidence_ppm
    } else {
        penalised(penalised_by_all(confidence_ppm, factors.drop_last()), factors.last())
    }
}

/// However many penalties are applied, and in whatever order, the confidence
/// stays at or below where it started.
pub proof fn lemma_confidence_never_grows(confidence_ppm: nat, factors: Seq<nat>)
    requires
        forall|i: int| 0 <= i < factors.len() ==> factors[i] <= 1_000_000,
    ensures
        penalised_by_all(confidence_ppm, factors) <= confidence_ppm,
    decreases factors.len(),
{
    if factors.len() > 0 {
        lemma_confidence_never_grows(confidence_ppm, factors.drop_last());
        let before = penalised_by_all(confidence_ppm, factors.drop_last());
        let f = factors.last();
        assert((before * f) / 1_000_000 <= before) by (nonlinear_arith)
            requires
                0 <= f <= 1_000_000,
                0 <= before,
        ;
    }
}

} // verus!
