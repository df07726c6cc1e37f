//! The test-vector catalog: an ordered, finite enumeration of sentence
//! test vectors, one group per sentence type, each vector tagged with the
//! structural rule it deliberately violates (or with the valid tag).
//!
//! The catalog is static configuration data. Its full contents are pinned
//! by the spec-level model, so any two enumerations of it are identical.

use vstd::prelude::*;
use vstd::string::*;
use crate::checksum::{checksum_spec, compute, hex_digit_str, hex_pair_spec};

verus! {

/// The structural rule a test vector deliberately violates, or `Valid`
/// for a fully well-formed positive control.
#[derive(Clone, Copy, Debug, PartialEq, Eq, Structural)]
pub enum FaultKind {
    Valid,
    WrongChecksum,
    MissingChecksum,
    NoChecksumField,
    MissingCr,
    MissingLf,
    MissingTerminator,
    InvalidPrefix,
    UnknownTalkerId,
    UnknownSentenceId,
    OversizedSentenceId,
    UndersizedSentenceId,
    EmptyFields,
    MissingTrailingFields,
    InvalidEnumeratedField,
    MissingUnitSuffix,
}

/// Spec-level model of a payload.
pub enum PayloadModel {
    /// A body framed in the default mode, with the computed checksum.
    WellFormed { body: Seq<char> },
    /// A body framed with a caller-supplied checksum byte.
    ChecksumOverride { body: Seq<char>, checksum: u8 },
    /// Literal bytes transmitted with no framing applied.
    Raw { bytes: Seq<char> },
}

/// Spec-level model of a catalog entry.
pub struct EntryModel {
    pub note: Seq<char>,
    pub fault: FaultKind,
    pub payload: PayloadModel,
}

/// What the driver transmits for one test vector: either a body to be
/// framed (optionally with an explicit checksum), or raw literal bytes
/// bypassing the framer.
#[derive(Debug, PartialEq, Eq)]
pub enum Payload {
    WellFormed { body: String },
    ChecksumOverride { body: String, checksum: u8 },
    Raw { bytes: String },
}

impl View for Payload {
    type V = PayloadModel;

    open spec fn view(&self) -> PayloadModel {
        match self {
            Payload::WellFormed { body } => PayloadModel::WellFormed { body: body@ },
            Payload::ChecksumOverride { body, checksum } => PayloadModel::ChecksumOverride {
                body: body@,
                checksum: *checksum,
            },
            Payload::Raw { bytes } => PayloadModel::Raw { bytes: bytes@ },
        }
    }
}

/// One test vector: the human-readable annotation text describing it,
/// the fault kind it exercises, and the payload to transmit.
#[derive(Debug, PartialEq, Eq)]
pub struct Entry {
    pub note: String,
    pub fault: FaultKind,
    pub payload: Payload,
}

impl View for Entry {
    type V = EntryModel;

    open spec fn view(&self) -> EntryModel {
        EntryModel { note: self.note@, fault: self.fault, payload: self.payload@ }
    }
}

/// Spec-level model of a sentence-type group.
pub struct GroupModel {
    pub label: Seq<char>,
    pub entries: Seq<EntryModel>,
}

/// All test vectors for one sentence type, in emission order.
#[derive(Debug, PartialEq, Eq)]
pub struct Group {
    /// The sentence-type identifier the group exercises.
    pub label: String,
    pub entries: Vec<Entry>,
}

/// The models of a sequence of entries, in order.
pub open spec fn entries_model(es: Seq<Entry>) -> Seq<EntryModel> {
    es.map(|i: int, e: Entry| e@)
}

impl View for Group {
    type V = GroupModel;

    open spec fn view(&self) -> GroupModel {
        GroupModel { label: self.label@, entries: entries_model(self.entries@) }
    }
}

/// The models of a sequence of groups, in order.
pub open spec fn groups_model(gs: Seq<Group>) -> Seq<GroupModel> {
    gs.map(|i: int, g: Group| g@)
}

/// Model of a well-formed entry.
pub open spec fn em_wf(note: Seq<char>, fault: FaultKind, body: Seq<char>) -> EntryModel {
    EntryModel { note, fault, payload: PayloadModel::WellFormed { body } }
}

/// Model of an explicit-checksum entry.
pub open spec fn em_ov(note: Seq<char>, fault: FaultKind, body: Seq<char>, ck: u8) -> EntryModel {
    EntryModel { note, fault, payload: PayloadModel::ChecksumOverride { body, checksum: ck } }
}

/// Model of a raw-bytes entry.
pub open spec fn em_raw(note: Seq<char>, fault: FaultKind, bytes: Seq<char>) -> EntryModel {
    EntryModel { note, fault, payload: PayloadModel::Raw { bytes } }
}

fn wf_entry(note: &str, fault: FaultKind, body: &str) -> (e: Entry)
    ensures
        e@ == em_wf(note@, fault, body@),
{
    Entry {
        note: String::from_str(note),
        fault,
        payload: Payload::WellFormed { body: String::from_str(body) },
    }
}

fn ov_entry(note: &str, fault: FaultKind, body: &str, ck: u8) -> (e: Entry)
    ensures
        e@ == em_ov(note@, fault, body@, ck),
{
    Entry {
        note: String::from_str(note),
        fault,
        payload: Payload::ChecksumOverride { body: String::from_str(body), checksum: ck },
    }
}

fn raw_entry(note: &str, fault: FaultKind, bytes: String) -> (e: Entry)
    ensures
        e@ == em_raw(note@, fault, bytes@),
{
    Entry { note: String::from_str(note), fault, payload: Payload::Raw { bytes } }
}

/// Number of fields a body carries: its comma count.
pub open spec fn field_count(s: Seq<char>) -> nat
    decreases s.len(),
{
    if s.len() == 0 {
        0
    } else {
        field_count(s.drop_last()) + if s.last() == ',' { 1nat } else { 0nat }
    }
}

/// A sequence free of commas has field count zero.
pub proof fn lemma_field_count_zero(s: Seq<char>)
    requires
        forall|i: int| 0 <= i < s.len() ==> s[i] != ',',
    ensures
        field_count(s) == 0,
    decreases s.len(),
{
    if s.len() > 0 {
        lemma_field_count_zero(s.drop_last());
    }
}

/// A sequence of `n` commas.
pub open spec fn commas(n: nat) -> Seq<char>
    decreases n,
{
    if n == 0 {
        Seq::empty()
    } else {
        commas((n - 1) as nat).push(',')
    }
}

/// Appending `n` commas adds `n` to the field count.
pub proof fn lemma_field_count_commas(s: Seq<char>, n: nat)
    ensures
        field_count(s + commas(n)) == field_count(s) + n,
    decreases n,
{
    if n == 0 {
        assert(s + commas(0) =~= s);
    } else {
        lemma_field_count_commas(s, (n - 1) as nat);
        assert(s + commas(n) =~= (s + commas((n - 1) as nat)).push(','));
        assert((s + commas((n - 1) as nat)).push(',').drop_last() =~= s + commas((n - 1) as nat));
    }
}

/// Field count of a well-formed entry model's body; zero for the other
/// payload shapes.
pub open spec fn model_field_count(e: EntryModel) -> nat {
    match e.payload {
        PayloadModel::WellFormed { body } => field_count(body),
        PayloadModel::ChecksumOverride { body, .. } => field_count(body),
        PayloadModel::Raw { .. } => 0,
    }
}

/// The shrinking-arity tail of a group: `n` well-formed entries whose
/// bodies are `header` followed by `n - 1`, `n - 2`, ..., `0` commas,
/// each tagged as a missing-trailing-fields case.
pub open spec fn shrink_models(header: Seq<char>, note: Seq<char>, n: nat) -> Seq<EntryModel> {
    Seq::new(
        n,
        |k: int| em_wf(note, FaultKind::MissingTrailingFields, header + commas((n - 1 - k) as nat)),
    )
}

/// The shrinking-arity sequence is strictly decreasing in field count,
/// down to zero fields, whenever the header itself carries no field
/// separator.
pub proof fn lemma_shrinking_arity(header: Seq<char>, note: Seq<char>, n: nat)
    requires
        field_count(header) == 0,
    ensures
        shrink_models(header, note, n).len() == n,
        forall|k: int|
            0 <= k < n ==> #[trigger] model_field_count(shrink_models(header, note, n)[k]) == n - 1
                - k,
        forall|k: int|
            0 <= k < n - 1 ==> #[trigger] model_field_count(shrink_models(header, note, n)[k])
                > model_field_count(shrink_models(header, note, n)[k + 1]),
        n > 0 ==> model_field_count(shrink_models(header, note, n)[n - 1]) == 0,
        forall|k: int|
            0 <= k < n ==> #[trigger] shrink_models(header, note, n)[k].fault
                == FaultKind::MissingTrailingFields,
{
    assert forall|k: int| 0 <= k < n implies #[trigger] model_field_count(
        shrink_models(header, note, n)[k],
    ) == n - 1 - k by {
        lemma_field_count_commas(header, (n - 1 - k) as nat);
    }
}

/// Builds the shrinking-arity entries for `header`, from `max_fields - 1`
/// empty fields down to none.
pub fn shrinking_entries(header: &str, note: &str, max_fields: usize) -> (r: Vec<Entry>)
    requires
        field_count(header@) == 0,
    ensures
        entries_model(r@) == shrink_models(header@, note@, max_fields as nat),
{
    let ghost target = shrink_models(header@, note@, max_fields as nat);
    let mut v: Vec<Entry> = Vec::new();
    let mut k: usize = 0;
    while k < max_fields
        invariant
            k <= max_fields,
            v@.len() == k,
            target == shrink_models(header@, note@, max_fields as nat),
            forall|i: int| 0 <= i < k ==> #[trigger] v@[i]@ == target[i],
        decreases max_fields - k,
    {
        let fields = max_fields - 1 - k;
        let mut body = String::from_str(header);
        proof {
            assert(body@ =~= header@ + commas(0));
        }
        let mut j: usize = 0;
        while j < fields
            invariant
                j <= fields,
                body@ == header@ + commas(j as nat),
            decreases fields - j,
        {
            body.append(",");
            proof {
                reveal_strlit(",");
                assert(body@ =~= header@ + commas(j as nat + 1));
            }
            j = j + 1;
        }
        let e = Entry {
            note: String::from_str(note),
            fault: FaultKind::MissingTrailingFields,
            payload: Payload::WellFormed { body },
        };
        proof {
            assert(e@ == target[k as int]);
        }
        v.push(e);
        k = k + 1;
    }
    proof {
        assert(entries_model(v@) =~= target);
    }
    v
}

/// A raw test payload assembled by hand: `prefix`, the body, `*`, the
/// checksum computed over the body, then `term`. With prefix `$` and
/// terminator CR LF this coincides with the default framing; any other
/// choice realises a prefix or terminator fault while the checksum stays
/// correct.
pub open spec fn raw_framed_spec(prefix: Seq<char>, body: Seq<char>, term: Seq<char>) -> Seq<
    char,
> {
    prefix + body + seq!['*'] + hex_pair_spec(checksum_spec(body)) + term
}

fn raw_framed(prefix: &str, body: &str, term: &str) -> (r: String)
    ensures
        r@ == raw_framed_spec(prefix@, body@, term@),
{
    let ck = compute(body);
    let mut s = String::from_str(prefix);
    s.append(body);
    s.append("*");
    s.append(hex_digit_str(ck / 16));
    s.append(hex_digit_str(ck % 16));
    s.append(term);
    proof {
        reveal_strlit("*");
        assert(s@ =~= raw_framed_spec(prefix@, body@, term@));
    }
    s
}

/// Entry models of `a + b` are the entry models of `a` then those of `b`.
proof fn lemma_entries_model_concat(a: Seq<Entry>, b: Seq<Entry>)
    ensures
        entries_model(a + b) == entries_model(a) + entries_model(b),
{
    assert(entries_model(a + b) =~= entries_model(a) + entries_model(b));
}

fn make_group(label: &str, head: Vec<Entry>, tail: Vec<Entry>) -> (g: Group)
    ensures
        g@.label == label@,
        g@.entries == entries_model(head@) + entries_model(tail@),
{
    let ghost hm = head@;
    let ghost tm = tail@;
    let mut entries = head;
    let mut rest = tail;
    entries.append(&mut rest);
    proof {
        lemma_entries_model_concat(hm, tm);
    }
    Group { label: String::from_str(label), entries }
}

/// Models of the hand-written entries of the GLC group. The GLC group
/// doubles as the representative sentence type for the type-independent
/// framing faults: terminator, checksum, prefix, and identifier cases.
pub open spec fn glc_head_models() -> Seq<EntryModel> {
    seq![
        em_wf(
            "Next 1 sentence is a valid message"@,
            FaultKind::Valid,
            "GPGLC,225239.784,2,N,01217.461,E,,5,3.5,,,,,,"@,
        ),
        em_wf(
            "Next 1 sentence is a valid message with only empty fields"@,
            FaultKind::EmptyFields,
            "GPGLC,,,,,,,,,,,,,,"@,
        ),
        em_raw(
            "Following 1 sentence has no terminator"@,
            FaultKind::MissingTerminator,
            raw_framed_spec("$"@, "GPGLC,225239.784,2,N,01217.461,E,,5,3.5,,,,,,"@, ""@),
        ),
        em_raw(
            "Following 1 sentence has a carriage return but no line feed"@,
            FaultKind::MissingLf,
            raw_framed_spec("$"@, "GPGLC,225239.784,2,N,01217.461,E,,5,3.5,,,,,,"@, "\r"@),
        ),
        em_raw(
            "Following 1 sentence has a line feed but no carriage return"@,
            FaultKind::MissingCr,
            raw_framed_spec("$"@, "GPGLC,225239.784,2,N,01217.461,E,,5,3.5,,,,,,"@, "\n"@),
        ),
        em_ov(
            "Following 1 sentence has incorrect checksum"@,
            FaultKind::WrongChecksum,
            "GPGLC,225239.784,2,N,01217.461,E,,5,3.5,,,,,,"@,
            0x99,
        ),
        em_raw(
            "Following 1 sentence has a checksum truncated to one digit"@,
            FaultKind::MissingChecksum,
            "$GPGLC,225239.784,2,N,01217.461,E,,5,3.5,,,,,,*9\r\n"@,
        ),
        em_raw(
            "Following 1 sentence has an empty checksum field"@,
            FaultKind::MissingChecksum,
            "$GPGLC,225239.784,2,N,01217.461,E,,5,3.5,,,,,,*\r\n"@,
        ),
        em_raw(
            "Following 1 sentence has a terminator but no checksum field"@,
            FaultKind::NoChecksumField,
            "$GPGLC,225239.784,2,N,01217.461,E,,5,3.5,,,,,,\r\n"@,
        ),
        em_raw(
            "Following 1 sentence has no checksum field and no terminator"@,
            FaultKind::NoChecksumField,
            "$GPGLC,225239.784,2,N,01217.461,E,,5,3.5,,,,,,"@,
        ),
        em_raw(
            "Following 1 sentence starts with an invalid prefix character"@,
            FaultKind::InvalidPrefix,
            raw_framed_spec("#"@, "GPGLC,225239.784,2,N,01217.461,E,,5,3.5,,,,,,"@, "\r\n"@),
        ),
        em_wf(
            "Following 1 sentence has an unknown talker id"@,
            FaultKind::UnknownTalkerId,
            "ZZGLC,225239.784,2,N,01217.461,E,,5,3.5,,,,,,"@,
        ),
        em_wf(
            "Following 1 sentence has an unknown sentence id"@,
            FaultKind::UnknownSentenceId,
            "GPZZZ,225239.784,2,N,01217.461,E,,5,3.5,,,,,,"@,
        ),
        em_wf(
            "Following 1 sentence has a too long sentence id"@,
            FaultKind::OversizedSentenceId,
            "GPZZZZZZ,225239.784,2,N,01217.461,E,,5,3.5,,,,,,"@,
        ),
        em_wf(
            "Following 1 sentence has a too short sentence id"@,
            FaultKind::UndersizedSentenceId,
            "GPGG"@,
        ),
        em_raw(
            "Following 1 sentence has a too short sentence id and no framing"@,
            FaultKind::UndersizedSentenceId,
            "$GPGG"@,
        ),
    ]
}

/// Model of the whole GLC group.
pub open spec fn glc_models() -> Seq<EntryModel> {
    glc_head_models() + shrink_models(
        "GPGLC"@,
        "Following 1 sentence is an incorrect GLC sentence with missing trailing fields"@,
        14,
    )
}

/// The GLC sentence-type group.
pub fn glc_group() -> (g: Group)
    ensures
        g@.label == "GLC"@,
        g@.entries == glc_models(),
{
    let mut head: Vec<Entry> = Vec::new();
    head.push(
        wf_entry(
            "Next 1 sentence is a valid message",
            FaultKind::Valid,
            "GPGLC,225239.784,2,N,01217.461,E,,5,3.5,,,,,,",
        ),
    );
    head.push(
        wf_entry(
            "Next 1 sentence is a valid message with only empty fields",
            FaultKind::EmptyFields,
            "GPGLC,,,,,,,,,,,,,,",
        ),
    );
    head.push(
        raw_entry(
            "Following 1 sentence has no terminator",
            FaultKind::MissingTerminator,
            raw_framed("$", "GPGLC,225239.784,2,N,01217.461,E,,5,3.5,,,,,,", ""),
        ),
    );
    head.push(
        raw_entry(
            "Following 1 sentence has a carriage return but no line feed",
            FaultKind::MissingLf,
            raw_framed("$", "GPGLC,225239.784,2,N,01217.461,E,,5,3.5,,,,,,", "\r"),
        ),
    );
    head.push(
        raw_entry(
            "Following 1 sentence has a line feed but no carriage return",
            FaultKind::MissingCr,
            raw_framed("$", "GPGLC,225239.784,2,N,01217.461,E,,5,3.5,,,,,,", "\n"),
        ),
    );
    head.push(
        ov_entry(
            "Following 1 sentence has incorrect checksum",
            FaultKind::WrongChecksum,
            "GPGLC,225239.784,2,N,01217.461,E,,5,3.5,,,,,,",
            0x99,
        ),
    );
    head.push(
        raw_entry(
            "Following 1 sentence has a checksum truncated to one digit",
            FaultKind::MissingChecksum,
            String::from_str("$GPGLC,225239.784,2,N,01217.461,E,,5,3.5,,,,,,*9\r\n"),
        ),
    );
    head.push(
        raw_entry(
            "Following 1 sentence has an empty checksum field",
            FaultKind::MissingChecksum,
            String::from_str("$GPGLC,225239.784,2,N,01217.461,E,,5,3.5,,,,,,*\r\n"),
        ),
    );
    head.push(
        raw_entry(
            "Following 1 sentence has a terminator but no checksum field",
            FaultKind::NoChecksumField,
            String::from_str("$GPGLC,225239.784,2,N,01217.461,E,,5,3.5,,,,,,\r\n"),
        ),
    );
    head.push(
        raw_entry(
            "Following 1 sentence has no checksum field and no terminator",
            FaultKind::NoChecksumField,
            String::from_str("$GPGLC,225239.784,2,N,01217.461,E,,5,3.5,,,,,,"),
        ),
    );
    head.push(
        raw_entry(
            "Following 1 sentence starts with an invalid prefix character",
            FaultKind::InvalidPrefix,
            raw_framed("#", "GPGLC,225239.784,2,N,01217.461,E,,5,3.5,,,,,,", "\r\n"),
        ),
    );
    head.push(
        wf_entry(
            "Following 1 sentence has an unknown talker id",
            FaultKind::UnknownTalkerId,
            "ZZGLC,225239.784,2,N,01217.461,E,,5,3.5,,,,,,",
        ),
    );
    head.push(
        wf_entry(
            "Following 1 sentence has an unknown sentence id",
            FaultKind::UnknownSentenceId,
            "GPZZZ,225239.784,2,N,01217.461,E,,5,3.5,,,,,,",
        ),
    );
    head.push(
        wf_entry(
            "Following 1 sentence has a too long sentence id",
            FaultKind::OversizedSentenceId,
            "GPZZZZZZ,225239.784,2,N,01217.461,E,,5,3.5,,,,,,",
        ),
    );
    head.push(
        wf_entry(
            "Following 1 sentence has a too short sentence id",
            FaultKind::UndersizedSentenceId,
            "GPGG",
        ),
    );
    head.push(
        raw_entry(
            "Following 1 sentence has a too short sentence id and no framing",
            FaultKind::UndersizedSentenceId,
            String::from_str("$GPGG"),
        ),
    );
    proof {
        assert(entries_model(head@) =~= glc_head_models());
        lemma_header_no_commas();
    }
    let tail = shrinking_entries(
        "GPGLC",
        "Following 1 sentence is an incorrect GLC sentence with missing trailing fields",
        14,
    );
    make_group("GLC", head, tail)
}

/// None of the catalog's sentence-type headers carries a field separator.
pub proof fn lemma_header_no_commas()
    ensures
        field_count("GPGLC"@) == 0,
        field_count("INDPT"@) == 0,
        field_count("GPHDT"@) == 0,
        field_count("GNGGA"@) == 0,
        field_count("GNGLL"@) == 0,
        field_count("GPGST"@) == 0,
        field_count("GPROT"@) == 0,
        field_count("GPVBW"@) == 0,
        field_count("GPVHW"@) == 0,
        field_count("GPVLW"@) == 0,
        field_count("GPVTG"@) == 0,
        field_count("GPZDA"@) == 0,
        field_count("GPTXT"@) == 0,
{
    reveal_strlit("GPGLC");
    reveal_strlit("INDPT");
    reveal_strlit("GPHDT");
    reveal_strlit("GNGGA");
    reveal_strlit("GNGLL");
    reveal_strlit("GPGST");
    reveal_strlit("GPROT");
    reveal_strlit("GPVBW");
    reveal_strlit("GPVHW");
    reveal_strlit("GPVLW");
    reveal_strlit("GPVTG");
    reveal_strlit("GPZDA");
    reveal_strlit("GPTXT");
    lemma_field_count_zero("GPGLC"@);
    lemma_field_count_zero("INDPT"@);
    lemma_field_count_zero("GPHDT"@);
    lemma_field_count_zero("GNGGA"@);
    lemma_field_count_zero("GNGLL"@);
    lemma_field_count_zero("GPGST"@);
    lemma_field_count_zero("GPROT"@);
    lemma_field_count_zero("GPVBW"@);
    lemma_field_count_zero("GPVHW"@);
    lemma_field_count_zero("GPVLW"@);
    lemma_field_count_zero("GPVTG"@);
    lemma_field_count_zero("GPZDA"@);
    lemma_field_count_zero("GPTXT"@);
}

/// Models of the hand-written entries of the DPT (depth) group.
pub open spec fn dpt_head_models() -> Seq<EntryModel> {
    seq![
        em_wf(
            "Following 1 sentence is a valid DPT sentence"@,
            FaultKind::Valid,
            "INDPT,2.3,0.0,300"@,
        ),
        em_wf(
            "Following 1 sentence is a valid DPT sentence without fraction"@,
            FaultKind::Valid,
            "INDPT,2,0,300"@,
        ),
        em_wf(
            "Following 1 sentence is a valid DPT sentence with a long fraction"@,
            FaultKind::Valid,
            "INDPT,2.1234567890,0.0,300"@,
        ),
        em_wf(
            "Following 1 sentence is a valid DPT sentence with only empty fields"@,
            FaultKind::EmptyFields,
            "INDPT,,,"@,
        ),
    ]
}

/// Model of the whole DPT group.
pub open spec fn dpt_models() -> Seq<EntryModel> {
    dpt_head_models() + shrink_models("INDPT"@, "Following 1 sentence is an incorrect DPT sentence with missing trailing fields"@, 3)
}

/// The DPT sentence-type group.
pub fn dpt_group() -> (g: Group)
    ensures
        g@.label == "DPT"@,
        g@.entries == dpt_models(),
{
    let mut head: Vec<Entry> = Vec::new();
    head.push(
        wf_entry(
            "Following 1 sentence is a valid DPT sentence",
            FaultKind::Valid,
            "INDPT,2.3,0.0,300",
        ),
    );
    head.push(
        wf_entry(
            "Following 1 sentence is a valid DPT sentence without fraction",
            FaultKind::Valid,
            "INDPT,2,0,300",
        ),
    );
    head.push(
        wf_entry(
            "Following 1 sentence is a valid DPT sentence with a long fraction",
            FaultKind::Valid,
            "INDPT,2.1234567890,0.0,300",
        ),
    );
    head.push(
        wf_entry(
            "Following 1 sentence is a valid DPT sentence with only empty fields",
            FaultKind::EmptyFields,
            "INDPT,,,",
        ),
    );
    proof {
        assert(entries_model(head@) =~= dpt_head_models());
        lemma_header_no_commas();
    }
    let tail = shrinking_entries(
        "INDPT",
        "Following 1 sentence is an incorrect DPT sentence with missing trailing fields",
        3,
    );
    make_group("DPT", head, tail)
}

/// Models of the hand-written entries of the HDT (heading) group.
pub open spec fn hdt_head_models() -> Seq<EntryModel> {
    seq![
        em_wf(
            "Following 1 sentence is a valid HDT sentence"@,
            FaultKind::Valid,
            "GPHDT,274.07,T"@,
        ),
        em_wf(
            "Following 1 sentence is a valid HDT sentence without fraction"@,
            FaultKind::Valid,
            "GPHDT,274,T"@,
        ),
        em_wf(
            "Following 1 sentence is a valid HDT sentence with a long fraction"@,
            FaultKind::Valid,
            "GPHDT,274.12345678,T"@,
        ),
        em_wf(
            "Following 1 sentence is a valid HDT sentence with only empty fields"@,
            FaultKind::EmptyFields,
            "GPHDT,,"@,
        ),
        em_wf(
            "Following 1 sentence is an incorrect HDT sentence with an invalid unit"@,
            FaultKind::InvalidEnumeratedField,
            "GPHDT,274.07,Z"@,
        ),
        em_wf(
            "Following 1 sentence is an incorrect HDT sentence with the unit suffix missing"@,
            FaultKind::MissingUnitSuffix,
            "GPHDT,274.07,"@,
        ),
    ]
}

/// Model of the whole HDT group.
pub open spec fn hdt_models() -> Seq<EntryModel> {
    hdt_head_models() + shrink_models("GPHDT"@, "Following 1 sentence is an incorrect HDT sentence with missing trailing fields"@, 2)
}

/// The HDT sentence-type group.
pub fn hdt_group() -> (g: Group)
    ensures
        g@.label == "HDT"@,
        g@.entries == hdt_models(),
{
    let mut head: Vec<Entry> = Vec::new();
    head.push(
        wf_entry(
            "Following 1 sentence is a valid HDT sentence",
            FaultKind::Valid,
            "GPHDT,274.07,T",
        ),
    );
    head.push(
        wf_entry(
            "Following 1 sentence is a valid HDT sentence without fraction",
            FaultKind::Valid,
            "GPHDT,274,T",
        ),
    );
    head.push(
        wf_entry(
            "Following 1 sentence is a valid HDT sentence with a long fraction",
            FaultKind::Valid,
            "GPHDT,274.12345678,T",
        ),
    );
    head.push(
        wf_entry(
            "Following 1 sentence is a valid HDT sentence with only empty fields",
            FaultKind::EmptyFields,
            "GPHDT,,",
        ),
    );
    head.push(
        wf_entry(
            "Following 1 sentence is an incorrect HDT sentence with an invalid unit",
            FaultKind::InvalidEnumeratedField,
            "GPHDT,274.07,Z",
        ),
    );
    head.push(
        wf_entry(
            "Following 1 sentence is an incorrect HDT sentence with the unit suffix missing",
            FaultKind::MissingUnitSuffix,
            "GPHDT,274.07,",
        ),
    );
    proof {
        assert(entries_model(head@) =~= hdt_head_models());
        lemma_header_no_commas();
    }
    let tail = shrinking_entries(
        "GPHDT",
        "Following 1 sentence is an incorrect HDT sentence with missing trailing fields",
        2,
    );
    make_group("HDT", head, tail)
}

/// Models of the hand-written entries of the GGA (positional fix) group.
pub open spec fn gga_head_models() -> Seq<EntryModel> {
    seq![
        em_wf(
            "Following 1 sentence is a valid GGA sentence"@,
            FaultKind::Valid,
            "GNGGA,001043.00,4404.14036,N,12118.85961,W,1,12,0.98,1113.0,M,-21.3,M,123,45"@,
        ),
        em_wf(
            "Following 1 sentence is a valid GGA sentence with only empty fields"@,
            FaultKind::EmptyFields,
            "GNGGA,,,,,,,,,,,,,,"@,
        ),
        em_wf(
            "Following 1 sentence is a valid GGA sentence without second fraction"@,
            FaultKind::Valid,
            "GNGGA,120043,4404.14036,N,12118.85961,W,1,12,0.98,1113.0,M,-21.3,M,123,45"@,
        ),
        em_wf(
            "Following 1 sentence is a valid GGA sentence without minute fraction"@,
            FaultKind::Valid,
            "GNGGA,120043,4404,N,12118,W,1,12,0.98,1113.0,M,-21.3,M,123,0045"@,
        ),
        em_wf(
            "Following 1 sentence is a valid GGA sentence with a long second fraction"@,
            FaultKind::Valid,
            "GNGGA,001043.1234567890,4404.14036,N,12118.85961,W,1,12,0.98,1113.0,M,-21.3,M,123,45"@,
        ),
        em_wf(
            "Following 1 sentence is an incorrect GGA sentence without latitude and longitude direction"@,
            FaultKind::MissingUnitSuffix,
            "GNGGA,120043,4404,,12118,,1,12,0.98,1113.0,M,-21.3,M,123,0045"@,
        ),
        em_wf(
            "Following 1 sentence is an incorrect GGA sentence with invalid units"@,
            FaultKind::InvalidEnumeratedField,
            "GNGGA,001043.00,4404.14036,N,12118.85961,W,1,12,0.98,1113.0,Z,-21.3,Z,123,45"@,
        ),
        em_wf(
            "Following 1 sentence is an incorrect GGA sentence with an invalid fix quality"@,
            FaultKind::InvalidEnumeratedField,
            "GNGGA,001043.00,4404.14036,N,12118.85961,W,9,12,0.98,1113.0,M,-21.3,M,123,45"@,
        ),
    ]
}

/// Model of the whole GGA group.
pub open spec fn gga_models() -> Seq<EntryModel> {
    gga_head_models() + shrink_models("GNGGA"@, "Following 1 sentence is an incorrect GGA sentence with missing trailing fields"@, 14)
}

/// The GGA sentence-type group.
pub fn gga_group() -> (g: Group)
    ensures
        g@.label == "GGA"@,
        g@.entries == gga_models(),
{
    let mut head: Vec<Entry> = Vec::new();
    head.push(
        wf_entry(
            "Following 1 sentence is a valid GGA sentence",
            FaultKind::Valid,
            "GNGGA,001043.00,4404.14036,N,12118.85961,W,1,12,0.98,1113.0,M,-21.3,M,123,45",
        ),
    );
    head.push(
        wf_entry(
            "Following 1 sentence is a valid GGA sentence with only empty fields",
            FaultKind::EmptyFields,
            "GNGGA,,,,,,,,,,,,,,",
        ),
    );
    head.push(
        wf_entry(
            "Following 1 sentence is a valid GGA sentence without second fraction",
            FaultKind::Valid,
            "GNGGA,120043,4404.14036,N,12118.85961,W,1,12,0.98,1113.0,M,-21.3,M,123,45",
        ),
    );
    head.push(
        wf_entry(
            "Following 1 sentence is a valid GGA sentence without minute fraction",
            FaultKind::Valid,
            "GNGGA,120043,4404,N,12118,W,1,12,0.98,1113.0,M,-21.3,M,123,0045",
        ),
    );
    head.push(
        wf_entry(
            "Following 1 sentence is a valid GGA sentence with a long second fraction",
            FaultKind::Valid,
            "GNGGA,001043.1234567890,4404.14036,N,12118.85961,W,1,12,0.98,1113.0,M,-21.3,M,123,45",
        ),
    );
    head.push(
        wf_entry(
            "Following 1 sentence is an incorrect GGA sentence without latitude and longitude direction",
            FaultKind::MissingUnitSuffix,
            "GNGGA,120043,4404,,12118,,1,12,0.98,1113.0,M,-21.3,M,123,0045",
        ),
    );
    head.push(
        wf_entry(
            "Following 1 sentence is an incorrect GGA sentence with invalid units",
            FaultKind::InvalidEnumeratedField,
            "GNGGA,001043.00,4404.14036,N,12118.85961,W,1,12,0.98,1113.0,Z,-21.3,Z,123,45",
        ),
    );
    head.push(
        wf_entry(
            "Following 1 sentence is an incorrect GGA sentence with an invalid fix quality",
            FaultKind::InvalidEnumeratedField,
            "GNGGA,001043.00,4404.14036,N,12118.85961,W,9,12,0.98,1113.0,M,-21.3,M,123,45",
        ),
    );
    proof {
        assert(entries_model(head@) =~= gga_head_models());
        lemma_header_no_commas();
    }
    let tail = shrinking_entries(
        "GNGGA",
        "Following 1 sentence is an incorrect GGA sentence with missing trailing fields",
        14,
    );
    make_group("GGA", head, tail)
}

/// Models of the hand-written entries of the GLL (latitude and longitude) group.
pub open spec fn gll_head_models() -> Seq<EntryModel> {
    seq![
        em_wf(
            "Following 1 sentence is a valid GLL sentence"@,
            FaultKind::Valid,
            "GNGLL,4404.14012,N,12118.85993,W,001037.00,A,A"@,
        ),
        em_wf(
            "Following 1 sentence is a valid GLL sentence with differential mode"@,
            FaultKind::Valid,
            "GNGLL,4404.14012,N,12118.85993,W,001037.00,A,S"@,
        ),
        em_wf(
            "Following 1 sentence is a valid GLL sentence with caution mode"@,
            FaultKind::Valid,
            "GNGLL,4404.14012,N,12118.85993,W,001037.00,A,C"@,
        ),
        em_wf(
            "Following 1 sentence is a valid GLL sentence with float mode"@,
            FaultKind::Valid,
            "GNGLL,4404.14012,N,12118.85993,W,001037.00,A,F"@,
        ),
        em_wf(
            "Following 1 sentence is a valid GLL sentence with no-fix mode"@,
            FaultKind::Valid,
            "GNGLL,4404.14012,N,12118.85993,W,001037.00,A,N"@,
        ),
        em_wf(
            "Following 1 sentence is a valid GLL sentence with status void"@,
            FaultKind::Valid,
            "GNGLL,4404.14012,N,12118.85993,W,001037.00,V,A"@,
        ),
        em_wf(
            "Following 1 sentence is a valid GLL sentence with only empty fields"@,
            FaultKind::EmptyFields,
            "GNGLL,,,,,,,"@,
        ),
        em_wf(
            "Following 1 sentence is a valid GLL sentence without second fraction"@,
            FaultKind::Valid,
            "GNGLL,4404.14012,N,12118.85993,W,001037,A,A"@,
        ),
        em_wf(
            "Following 1 sentence is a valid GLL sentence without minute fraction"@,
            FaultKind::Valid,
            "GNGLL,4404,N,12118,W,001037.00,A,A"@,
        ),
        em_wf(
            "Following 1 sentence is a valid GLL sentence with a long second fraction"@,
            FaultKind::Valid,
            "GNGLL,4404.14012,N,12118.85993,W,001037.1234567890,A,A"@,
        ),
        em_wf(
            "Following 1 sentence is an incorrect GLL sentence without latitude and longitude direction"@,
            FaultKind::MissingUnitSuffix,
            "GNGLL,4404.14012,,12118.85993,,001037.00,A,A"@,
        ),
        em_wf(
            "Following 1 sentence is an incorrect GLL sentence with an invalid status"@,
            FaultKind::InvalidEnumeratedField,
            "GNGLL,4404.14012,N,12118.85993,W,001037.00,Z,A"@,
        ),
        em_wf(
            "Following 1 sentence is an incorrect GLL sentence with an invalid mode indicator"@,
            FaultKind::InvalidEnumeratedField,
            "GNGLL,4404.14012,N,12118.85993,W,001037.00,A,Z"@,
        ),
    ]
}

/// Model of the whole GLL group.
pub open spec fn gll_models() -> Seq<EntryModel> {
    gll_head_models() + shrink_models("GNGLL"@, "Following 1 sentence is an incorrect GLL sentence with missing trailing fields"@, 7)
}

/// The GLL sentence-type group.
pub fn gll_group() -> (g: Group)
    ensures
        g@.label == "GLL"@,
        g@.entries == gll_models(),
{
    let mut head: Vec<Entry> = Vec::new();
    head.push(
        wf_entry(
            "Following 1 sentence is a valid GLL sentence",
            FaultKind::Valid,
            "GNGLL,4404.14012,N,12118.85993,W,001037.00,A,A",
        ),
    );
    head.push(
        wf_entry(
            "Following 1 sentence is a valid GLL sentence with differential mode",
            FaultKind::Valid,
            "GNGLL,4404.14012,N,12118.85993,W,001037.00,A,S",
        ),
    );
    head.push(
        wf_entry(
            "Following 1 sentence is a valid GLL sentence with caution mode",
            FaultKind::Valid,
            "GNGLL,4404.14012,N,12118.85993,W,001037.00,A,C",
        ),
    );
    head.push(
        wf_entry(
            "Following 1 sentence is a valid GLL sentence with float mode",
            FaultKind::Valid,
            "GNGLL,4404.14012,N,12118.85993,W,001037.00,A,F",
        ),
    );
    head.push(
        wf_entry(
            "Following 1 sentence is a valid GLL sentence with no-fix mode",
            FaultKind::Valid,
            "GNGLL,4404.14012,N,12118.85993,W,001037.00,A,N",
        ),
    );
    head.push(
        wf_entry(
            "Following 1 sentence is a valid GLL sentence with status void",
            FaultKind::Valid,
            "GNGLL,4404.14012,N,12118.85993,W,001037.00,V,A",
        ),
    );
    head.push(
        wf_entry(
            "Following 1 sentence is a valid GLL sentence with only empty fields",
            FaultKind::EmptyFields,
            "GNGLL,,,,,,,",
        ),
    );
    head.push(
        wf_entry(
            "Following 1 sentence is a valid GLL sentence without second fraction",
            FaultKind::Valid,
            "GNGLL,4404.14012,N,12118.85993,W,001037,A,A",
        ),
    );
    head.push(
        wf_entry(
            "Following 1 sentence is a valid GLL sentence without minute fraction",
            FaultKind::Valid,
            "GNGLL,4404,N,12118,W,001037.00,A,A",
        ),
    );
    head.push(
        wf_entry(
            "Following 1 sentence is a valid GLL sentence with a long second fraction",
            FaultKind::Valid,
            "GNGLL,4404.14012,N,12118.85993,W,001037.1234567890,A,A",
        ),
    );
    head.push(
        wf_entry(
            "Following 1 sentence is an incorrect GLL sentence without latitude and longitude direction",
            FaultKind::MissingUnitSuffix,
            "GNGLL,4404.14012,,12118.85993,,001037.00,A,A",
        ),
    );
    head.push(
        wf_entry(
            "Following 1 sentence is an incorrect GLL sentence with an invalid status",
            FaultKind::InvalidEnumeratedField,
            "GNGLL,4404.14012,N,12118.85993,W,001037.00,Z,A",
        ),
    );
    head.push(
        wf_entry(
            "Following 1 sentence is an incorrect GLL sentence with an invalid mode indicator",
            FaultKind::InvalidEnumeratedField,
            "GNGLL,4404.14012,N,12118.85993,W,001037.00,A,Z",
        ),
    );
    proof {
        assert(entries_model(head@) =~= gll_head_models());
        lemma_header_no_commas();
    }
    let tail = shrinking_entries(
        "GNGLL",
        "Following 1 sentence is an incorrect GLL sentence with missing trailing fields",
        7,
    );
    make_group("GLL", head, tail)
}

/// Models of the hand-written entries of the GST (statistical error) group.
pub open spec fn gst_head_models() -> Seq<EntryModel> {
    seq![
        em_wf(
            "Following 1 sentence is a valid GST sentence"@,
            FaultKind::Valid,
            "GPGST,182141.000,15.5,15.3,7.2,21.8,0.9,0.5,0.8"@,
        ),
        em_wf(
            "Following 1 sentence is a valid GST sentence without fraction"@,
            FaultKind::Valid,
            "GPGST,182141,15,15,7,21,0,0,0"@,
        ),
        em_wf(
            "Following 1 sentence is a valid GST sentence with a long fraction"@,
            FaultKind::Valid,
            "GPGST,182141.1234567890,15.5,15.3,7.2,21.8,0.9,0.5,0.8"@,
        ),
        em_wf(
            "Following 1 sentence is a valid GST sentence with only empty fields"@,
            FaultKind::EmptyFields,
            "GPGST,,,,,,,,"@,
        ),
    ]
}

/// Model of the whole GST group.
pub open spec fn gst_models() -> Seq<EntryModel> {
    gst_head_models() + shrink_models("GPGST"@, "Following 1 sentence is an incorrect GST sentence with missing trailing fields"@, 8)
}

/// The GST sentence-type group.
pub fn gst_group() -> (g: Group)
    ensures
        g@.label == "GST"@,
        g@.entries == gst_models(),
{
    let mut head: Vec<Entry> = Vec::new();
    head.push(
        wf_entry(
            "Following 1 sentence is a valid GST sentence",
            FaultKind::Valid,
            "GPGST,182141.000,15.5,15.3,7.2,21.8,0.9,0.5,0.8",
        ),
    );
    head.push(
        wf_entry(
            "Following 1 sentence is a valid GST sentence without fraction",
            FaultKind::Valid,
            "GPGST,182141,15,15,7,21,0,0,0",
        ),
    );
    head.push(
        wf_entry(
            "Following 1 sentence is a valid GST sentence with a long fraction",
            FaultKind::Valid,
            "GPGST,182141.1234567890,15.5,15.3,7.2,21.8,0.9,0.5,0.8",
        ),
    );
    head.push(
        wf_entry(
            "Following 1 sentence is a valid GST sentence with only empty fields",
            FaultKind::EmptyFields,
            "GPGST,,,,,,,,",
        ),
    );
    proof {
        assert(entries_model(head@) =~= gst_head_models());
        lemma_header_no_commas();
    }
    let tail = shrinking_entries(
        "GPGST",
        "Following 1 sentence is an incorrect GST sentence with missing trailing fields",
        8,
    );
    make_group("GST", head, tail)
}

/// Models of the hand-written entries of the ROT (rate of turn) group.
pub open spec fn rot_head_models() -> Seq<EntryModel> {
    seq![
        em_wf(
            "Following 1 sentence is a valid ROT sentence"@,
            FaultKind::Valid,
            "GPROT,35.6,A"@,
        ),
        em_wf(
            "Following 1 sentence is a valid ROT sentence with status void"@,
            FaultKind::Valid,
            "GPROT,,V"@,
        ),
        em_wf(
            "Following 1 sentence is a valid ROT sentence with only empty fields"@,
            FaultKind::EmptyFields,
            "GPROT,,"@,
        ),
        em_wf(
            "Following 1 sentence is a valid ROT sentence without fraction"@,
            FaultKind::Valid,
            "GPROT,35,A"@,
        ),
        em_wf(
            "Following 1 sentence is a valid ROT sentence with a long fraction"@,
            FaultKind::Valid,
            "GPROT,35.12345678,A"@,
        ),
        em_wf(
            "Following 1 sentence is an incorrect ROT sentence with an invalid status"@,
            FaultKind::InvalidEnumeratedField,
            "GPROT,35.6,Z"@,
        ),
    ]
}

/// Model of the whole ROT group.
pub open spec fn rot_models() -> Seq<EntryModel> {
    rot_head_models() + shrink_models("GPROT"@, "Following 1 sentence is an incorrect ROT sentence with missing trailing fields"@, 2)
}

/// The ROT sentence-type group.
pub fn rot_group() -> (g: Group)
    ensures
        g@.label == "ROT"@,
        g@.entries == rot_models(),
{
    let mut head: Vec<Entry> = Vec::new();
    head.push(
        wf_entry(
            "Following 1 sentence is a valid ROT sentence",
            FaultKind::Valid,
            "GPROT,35.6,A",
        ),
    );
    head.push(
        wf_entry(
            "Following 1 sentence is a valid ROT sentence with status void",
            FaultKind::Valid,
            "GPROT,,V",
        ),
    );
    head.push(
        wf_entry(
            "Following 1 sentence is a valid ROT sentence with only empty fields",
            FaultKind::EmptyFields,
            "GPROT,,",
        ),
    );
    head.push(
        wf_entry(
            "Following 1 sentence is a valid ROT sentence without fraction",
            FaultKind::Valid,
            "GPROT,35,A",
        ),
    );
    head.push(
        wf_entry(
            "Following 1 sentence is a valid ROT sentence with a long fraction",
            FaultKind::Valid,
            "GPROT,35.12345678,A",
        ),
    );
    head.push(
        wf_entry(
            "Following 1 sentence is an incorrect ROT sentence with an invalid status",
            FaultKind::InvalidEnumeratedField,
            "GPROT,35.6,Z",
        ),
    );
    proof {
        assert(entries_model(head@) =~= rot_head_models());
        lemma_header_no_commas();
    }
    let tail = shrinking_entries(
        "GPROT",
        "Following 1 sentence is an incorrect ROT sentence with missing trailing fields",
        2,
    );
    make_group("ROT", head, tail)
}

/// Models of the hand-written entries of the VBW (dual ground and water speed) group.
pub open spec fn vbw_head_models() -> Seq<EntryModel> {
    seq![
        em_wf(
            "Following 1 sentence is a valid VBW sentence"@,
            FaultKind::Valid,
            "GPVBW,1.2,2.3,A,3.4,4.5,A,5.6,A,6.7,A"@,
        ),
        em_wf(
            "Following 1 sentence is a valid VBW sentence without fraction"@,
            FaultKind::Valid,
            "GPVBW,1,2,A,3,4,A,5,A,6,A"@,
        ),
        em_wf(
            "Following 1 sentence is a valid VBW sentence with a long fraction"@,
            FaultKind::Valid,
            "GPVBW,1.1234567,2.1234567,A,3.1234567,4.1234567,A,5.1234567,A,6.1234567,A"@,
        ),
        em_wf(
            "Following 1 sentence is a valid VBW sentence with only empty fields"@,
            FaultKind::EmptyFields,
            "GPVBW,,,,,,,,,,"@,
        ),
        em_wf(
            "Following 1 sentence is a valid VBW sentence with all status flags void"@,
            FaultKind::Valid,
            "GPVBW,1.2,2.3,V,3.4,4.5,V,5.6,V,6.7,V"@,
        ),
        em_wf(
            "Following 1 sentence is an incorrect VBW sentence with an invalid status"@,
            FaultKind::InvalidEnumeratedField,
            "GPVBW,1.2,2.3,Z,3.4,4.5,A,5.6,A,6.7,A"@,
        ),
    ]
}

/// Model of the whole VBW group.
pub open spec fn vbw_models() -> Seq<EntryModel> {
    vbw_head_models() + shrink_models("GPVBW"@, "Following 1 sentence is an incorrect VBW sentence with missing trailing fields"@, 10)
}

/// The VBW sentence-type group.
pub fn vbw_group() -> (g: Group)
    ensures
        g@.label == "VBW"@,
        g@.entries == vbw_models(),
{
    let mut head: Vec<Entry> = Vec::new();
    head.push(
        wf_entry(
            "Following 1 sentence is a valid VBW sentence",
            FaultKind::Valid,
            "GPVBW,1.2,2.3,A,3.4,4.5,A,5.6,A,6.7,A",
        ),
    );
    head.push(
        wf_entry(
            "Following 1 sentence is a valid VBW sentence without fraction",
            FaultKind::Valid,
            "GPVBW,1,2,A,3,4,A,5,A,6,A",
        ),
    );
    head.push(
        wf_entry(
            "Following 1 sentence is a valid VBW sentence with a long fraction",
            FaultKind::Valid,
            "GPVBW,1.1234567,2.1234567,A,3.1234567,4.1234567,A,5.1234567,A,6.1234567,A",
        ),
    );
    head.push(
        wf_entry(
            "Following 1 sentence is a valid VBW sentence with only empty fields",
            FaultKind::EmptyFields,
            "GPVBW,,,,,,,,,,",
        ),
    );
    head.push(
        wf_entry(
            "Following 1 sentence is a valid VBW sentence with all status flags void",
            FaultKind::Valid,
            "GPVBW,1.2,2.3,V,3.4,4.5,V,5.6,V,6.7,V",
        ),
    );
    head.push(
        wf_entry(
            "Following 1 sentence is an incorrect VBW sentence with an invalid status",
            FaultKind::InvalidEnumeratedField,
            "GPVBW,1.2,2.3,Z,3.4,4.5,A,5.6,A,6.7,A",
        ),
    );
    proof {
        assert(entries_model(head@) =~= vbw_head_models());
        lemma_header_no_commas();
    }
    let tail = shrinking_entries(
        "GPVBW",
        "Following 1 sentence is an incorrect VBW sentence with missing trailing fields",
        10,
    );
    make_group("VBW", head, tail)
}

/// Models of the hand-written entries of the VHW (water speed and heading) group.
pub open spec fn vhw_head_models() -> Seq<EntryModel> {
    seq![
        em_wf(
            "Following 1 sentence is a valid VHW sentence"@,
            FaultKind::Valid,
            "GPVHW,35.6,T,35.8,M,5.0,N,9.26,K"@,
        ),
        em_wf(
            "Following 1 sentence is a valid VHW sentence without fraction"@,
            FaultKind::Valid,
            "GPVHW,35,T,35,M,5,N,9,K"@,
        ),
        em_wf(
            "Following 1 sentence is a valid VHW sentence with a long fraction"@,
            FaultKind::Valid,
            "GPVHW,35.1234567,T,35.2345678,M,5.3456789,N,9.4567890,K"@,
        ),
        em_wf(
            "Following 1 sentence is a valid VHW sentence with only empty fields"@,
            FaultKind::EmptyFields,
            "GPVHW,,,,,,,,"@,
        ),
        em_wf(
            "Following 1 sentence is an incorrect VHW sentence with invalid units"@,
            FaultKind::InvalidEnumeratedField,
            "GPVHW,35,A,35,B,5,Y,9,Z"@,
        ),
    ]
}

/// Model of the whole VHW group.
pub open spec fn vhw_models() -> Seq<EntryModel> {
    vhw_head_models() + shrink_models("GPVHW"@, "Following 1 sentence is an incorrect VHW sentence with missing trailing fields"@, 8)
}

/// The VHW sentence-type group.
pub fn vhw_group() -> (g: Group)
    ensures
        g@.label == "VHW"@,
        g@.entries == vhw_models(),
{
    let mut head: Vec<Entry> = Vec::new();
    head.push(
        wf_entry(
            "Following 1 sentence is a valid VHW sentence",
            FaultKind::Valid,
            "GPVHW,35.6,T,35.8,M,5.0,N,9.26,K",
        ),
    );
    head.push(
        wf_entry(
            "Following 1 sentence is a valid VHW sentence without fraction",
            FaultKind::Valid,
            "GPVHW,35,T,35,M,5,N,9,K",
        ),
    );
    head.push(
        wf_entry(
            "Following 1 sentence is a valid VHW sentence with a long fraction",
            FaultKind::Valid,
            "GPVHW,35.1234567,T,35.2345678,M,5.3456789,N,9.4567890,K",
        ),
    );
    head.push(
        wf_entry(
            "Following 1 sentence is a valid VHW sentence with only empty fields",
            FaultKind::EmptyFields,
            "GPVHW,,,,,,,,",
        ),
    );
    head.push(
        wf_entry(
            "Following 1 sentence is an incorrect VHW sentence with invalid units",
            FaultKind::InvalidEnumeratedField,
            "GPVHW,35,A,35,B,5,Y,9,Z",
        ),
    );
    proof {
        assert(entries_model(head@) =~= vhw_head_models());
        lemma_header_no_commas();
    }
    let tail = shrinking_entries(
        "GPVHW",
        "Following 1 sentence is an incorrect VHW sentence with missing trailing fields",
        8,
    );
    make_group("VHW", head, tail)
}

/// Models of the hand-written entries of the VLW (distance travelled) group.
pub open spec fn vlw_head_models() -> Seq<EntryModel> {
    seq![
        em_wf(
            "Following 1 sentence is a valid VLW sentence"@,
            FaultKind::Valid,
            "GPVLW,1.2,N,2.3,N,3.4,N,4.5,N"@,
        ),
        em_wf(
            "Following 1 sentence is a valid VLW sentence without fraction"@,
            FaultKind::Valid,
            "GPVLW,1,N,2,N,3,N,4,N"@,
        ),
        em_wf(
            "Following 1 sentence is a valid VLW sentence with a long fraction"@,
            FaultKind::Valid,
            "GPVLW,1.1234567,N,2.1234567,N,3.1234567,N,4.1234567,N"@,
        ),
        em_wf(
            "Following 1 sentence is a valid VLW sentence with only empty fields"@,
            FaultKind::EmptyFields,
            "GPVLW,,,,,,,,"@,
        ),
        em_wf(
            "Following 1 sentence is an incorrect VLW sentence with invalid units"@,
            FaultKind::InvalidEnumeratedField,
            "GPVLW,1,A,2,B,3,Y,4,Z"@,
        ),
    ]
}

/// Model of the whole VLW group.
pub open spec fn vlw_models() -> Seq<EntryModel> {
    vlw_head_models() + shrink_models("GPVLW"@, "Following 1 sentence is an incorrect VLW sentence with missing trailing fields"@, 8)
}

/// The VLW sentence-type group.
pub fn vlw_group() -> (g: Group)
    ensures
        g@.label == "VLW"@,
        g@.entries == vlw_models(),
{
    let mut head: Vec<Entry> = Vec::new();
    head.push(
        wf_entry(
            "Following 1 sentence is a valid VLW sentence",
            FaultKind::Valid,
            "GPVLW,1.2,N,2.3,N,3.4,N,4.5,N",
        ),
    );
    head.push(
        wf_entry(
            "Following 1 sentence is a valid VLW sentence without fraction",
            FaultKind::Valid,
            "GPVLW,1,N,2,N,3,N,4,N",
        ),
    );
    head.push(
        wf_entry(
            "Following 1 sentence is a valid VLW sentence with a long fraction",
            FaultKind::Valid,
            "GPVLW,1.1234567,N,2.1234567,N,3.1234567,N,4.1234567,N",
        ),
    );
    head.push(
        wf_entry(
            "Following 1 sentence is a valid VLW sentence with only empty fields",
            FaultKind::EmptyFields,
            "GPVLW,,,,,,,,",
        ),
    );
    head.push(
        wf_entry(
            "Following 1 sentence is an incorrect VLW sentence with invalid units",
            FaultKind::InvalidEnumeratedField,
            "GPVLW,1,A,2,B,3,Y,4,Z",
        ),
    );
    proof {
        assert(entries_model(head@) =~= vlw_head_models());
        lemma_header_no_commas();
    }
    let tail = shrinking_entries(
        "GPVLW",
        "Following 1 sentence is an incorrect VLW sentence with missing trailing fields",
        8,
    );
    make_group("VLW", head, tail)
}

/// Models of the hand-written entries of the VTG (course over ground) group.
pub open spec fn vtg_head_models() -> Seq<EntryModel> {
    seq![
        em_wf(
            "Following 1 sentence is a valid VTG sentence"@,
            FaultKind::Valid,
            "GPVTG,35.6,T,35.8,M,5.0,N,9.26,K,A"@,
        ),
        em_wf(
            "Following 1 sentence is a valid VTG sentence without fraction"@,
            FaultKind::Valid,
            "GPVTG,35,T,35,M,5,N,9,K,A"@,
        ),
        em_wf(
            "Following 1 sentence is a valid VTG sentence with a long fraction"@,
            FaultKind::Valid,
            "GPVTG,35.1234567,T,35.2345678,M,5.3456789,N,9.4567890,K,A"@,
        ),
        em_wf(
            "Following 1 sentence is a valid VTG sentence with only empty fields"@,
            FaultKind::EmptyFields,
            "GPVTG,,,,,,,,,"@,
        ),
        em_wf(
            "Following 1 sentence is a valid VTG sentence with differential mode"@,
            FaultKind::Valid,
            "GPVTG,35,T,35,M,5,N,9,K,S"@,
        ),
        em_wf(
            "Following 1 sentence is a valid VTG sentence with caution mode"@,
            FaultKind::Valid,
            "GPVTG,35,T,35,M,5,N,9,K,C"@,
        ),
        em_wf(
            "Following 1 sentence is a valid VTG sentence with float mode"@,
            FaultKind::Valid,
            "GPVTG,35,T,35,M,5,N,9,K,F"@,
        ),
        em_wf(
            "Following 1 sentence is a valid VTG sentence with no-fix mode"@,
            FaultKind::Valid,
            "GPVTG,35,T,35,M,5,N,9,K,N"@,
        ),
        em_wf(
            "Following 1 sentence is an incorrect VTG sentence with an invalid mode indicator"@,
            FaultKind::InvalidEnumeratedField,
            "GPVTG,35,T,35,M,5,N,9,K,Z"@,
        ),
        em_wf(
            "Following 1 sentence is an incorrect VTG sentence with invalid units"@,
            FaultKind::InvalidEnumeratedField,
            "GPVTG,35,A,35,B,5,Y,9,Z,A"@,
        ),
    ]
}

/// Model of the whole VTG group.
pub open spec fn vtg_models() -> Seq<EntryModel> {
    vtg_head_models() + shrink_models("GPVTG"@, "Following 1 sentence is an incorrect VTG sentence with missing trailing fields"@, 9)
}

/// The VTG sentence-type group.
pub fn vtg_group() -> (g: Group)
    ensures
        g@.label == "VTG"@,
        g@.entries == vtg_models(),
{
    let mut head: Vec<Entry> = Vec::new();
    head.push(
        wf_entry(
            "Following 1 sentence is a valid VTG sentence",
            FaultKind::Valid,
            "GPVTG,35.6,T,35.8,M,5.0,N,9.26,K,A",
        ),
    );
    head.push(
        wf_entry(
            "Following 1 sentence is a valid VTG sentence without fraction",
            FaultKind::Valid,
            "GPVTG,35,T,35,M,5,N,9,K,A",
        ),
    );
    head.push(
        wf_entry(
            "Following 1 sentence is a valid VTG sentence with a long fraction",
            FaultKind::Valid,
            "GPVTG,35.1234567,T,35.2345678,M,5.3456789,N,9.4567890,K,A",
        ),
    );
    head.push(
        wf_entry(
            "Following 1 sentence is a valid VTG sentence with only empty fields",
            FaultKind::EmptyFields,
            "GPVTG,,,,,,,,,",
        ),
    );
    head.push(
        wf_entry(
            "Following 1 sentence is a valid VTG sentence with differential mode",
            FaultKind::Valid,
            "GPVTG,35,T,35,M,5,N,9,K,S",
        ),
    );
    head.push(
        wf_entry(
            "Following 1 sentence is a valid VTG sentence with caution mode",
            FaultKind::Valid,
            "GPVTG,35,T,35,M,5,N,9,K,C",
        ),
    );
    head.push(
        wf_entry(
            "Following 1 sentence is a valid VTG sentence with float mode",
            FaultKind::Valid,
            "GPVTG,35,T,35,M,5,N,9,K,F",
        ),
    );
    head.push(
        wf_entry(
            "Following 1 sentence is a valid VTG sentence with no-fix mode",
            FaultKind::Valid,
            "GPVTG,35,T,35,M,5,N,9,K,N",
        ),
    );
    head.push(
        wf_entry(
            "Following 1 sentence is an incorrect VTG sentence with an invalid mode indicator",
            FaultKind::InvalidEnumeratedField,
            "GPVTG,35,T,35,M,5,N,9,K,Z",
        ),
    );
    head.push(
        wf_entry(
            "Following 1 sentence is an incorrect VTG sentence with invalid units",
            FaultKind::InvalidEnumeratedField,
            "GPVTG,35,A,35,B,5,Y,9,Z,A",
        ),
    );
    proof {
        assert(entries_model(head@) =~= vtg_head_models());
        lemma_header_no_commas();
    }
    let tail = shrinking_entries(
        "GPVTG",
        "Following 1 sentence is an incorrect VTG sentence with missing trailing fields",
        9,
    );
    make_group("VTG", head, tail)
}

/// Models of the hand-written entries of the ZDA (date and time zone) group.
pub open spec fn zda_head_models() -> Seq<EntryModel> {
    seq![
        em_wf(
            "Following 1 sentence is a valid ZDA sentence"@,
            FaultKind::Valid,
            "GPZDA,225239.91,14,11,2015,+01,00"@,
        ),
        em_wf(
            "Following 1 sentence is a valid ZDA sentence with only empty fields"@,
            FaultKind::EmptyFields,
            "GPZDA,,,,,,"@,
        ),
        em_wf(
            "Following 1 sentence is a valid ZDA sentence without second fraction"@,
            FaultKind::Valid,
            "GPZDA,225239,14,11,2015,+01,00"@,
        ),
        em_wf(
            "Following 1 sentence is a valid ZDA sentence with a negative time zone"@,
            FaultKind::Valid,
            "GPZDA,225239,14,11,2015,-07,30"@,
        ),
        em_wf(
            "Following 1 sentence is a valid ZDA sentence with a negative zero time zone"@,
            FaultKind::Valid,
            "GPZDA,225239,14,11,2015,-00,30"@,
        ),
        em_wf(
            "Following 1 sentence is a valid ZDA sentence with a long second fraction"@,
            FaultKind::Valid,
            "GPZDA,225239.1234567890,14,11,2015,-00,30"@,
        ),
        em_wf(
            "Following 1 sentence is an incorrect ZDA sentence without leading zeros"@,
            FaultKind::InvalidEnumeratedField,
            "GPZDA,25239,4,1,15,5,0"@,
        ),
    ]
}

/// Model of the whole ZDA group.
pub open spec fn zda_models() -> Seq<EntryModel> {
    zda_head_models() + shrink_models("GPZDA"@, "Following 1 sentence is an incorrect ZDA sentence with missing trailing fields"@, 6)
}

/// The ZDA sentence-type group.
pub fn zda_group() -> (g: Group)
    ensures
        g@.label == "ZDA"@,
        g@.entries == zda_models(),
{
    let mut head: Vec<Entry> = Vec::new();
    head.push(
        wf_entry(
            "Following 1 sentence is a valid ZDA sentence",
            FaultKind::Valid,
            "GPZDA,225239.91,14,11,2015,+01,00",
        ),
    );
    head.push(
        wf_entry(
            "Following 1 sentence is a valid ZDA sentence with only empty fields",
            FaultKind::EmptyFields,
            "GPZDA,,,,,,",
        ),
    );
    head.push(
        wf_entry(
            "Following 1 sentence is a valid ZDA sentence without second fraction",
            FaultKind::Valid,
            "GPZDA,225239,14,11,2015,+01,00",
        ),
    );
    head.push(
        wf_entry(
            "Following 1 sentence is a valid ZDA sentence with a negative time zone",
            FaultKind::Valid,
            "GPZDA,225239,14,11,2015,-07,30",
        ),
    );
    head.push(
        wf_entry(
            "Following 1 sentence is a valid ZDA sentence with a negative zero time zone",
            FaultKind::Valid,
            "GPZDA,225239,14,11,2015,-00,30",
        ),
    );
    head.push(
        wf_entry(
            "Following 1 sentence is a valid ZDA sentence with a long second fraction",
            FaultKind::Valid,
            "GPZDA,225239.1234567890,14,11,2015,-00,30",
        ),
    );
    head.push(
        wf_entry(
            "Following 1 sentence is an incorrect ZDA sentence without leading zeros",
            FaultKind::InvalidEnumeratedField,
            "GPZDA,25239,4,1,15,5,0",
        ),
    );
    proof {
        assert(entries_model(head@) =~= zda_head_models());
        lemma_header_no_commas();
    }
    let tail = shrinking_entries(
        "GPZDA",
        "Following 1 sentence is an incorrect ZDA sentence with missing trailing fields",
        6,
    );
    make_group("ZDA", head, tail)
}

/// Models of the hand-written entries of the TXT (free text) group.
pub open spec fn txt_head_models() -> Seq<EntryModel> {
    seq![
        em_wf(
            "Following 1 sentence is a valid TXT sentence"@,
            FaultKind::Valid,
            "GPTXT,01,01,Conformance catalog in transit"@,
        ),
        em_wf(
            "Following 1 sentence is a valid TXT sentence with only empty fields"@,
            FaultKind::EmptyFields,
            "GPTXT,,,"@,
        ),
    ]
}

/// Model of the whole TXT group.
pub open spec fn txt_models() -> Seq<EntryModel> {
    txt_head_models() + shrink_models("GPTXT"@, "Following 1 sentence is an incorrect TXT sentence with missing trailing fields"@, 3)
}

/// The TXT sentence-type group.
pub fn txt_group() -> (g: Group)
    ensures
        g@.label == "TXT"@,
        g@.entries == txt_models(),
{
    let mut head: Vec<Entry> = Vec::new();
    head.push(
        wf_entry(
            "Following 1 sentence is a valid TXT sentence",
            FaultKind::Valid,
            "GPTXT,01,01,Conformance catalog in transit",
        ),
    );
    head.push(
        wf_entry(
            "Following 1 sentence is a valid TXT sentence with only empty fields",
            FaultKind::EmptyFields,
            "GPTXT,,,",
        ),
    );
    proof {
        assert(entries_model(head@) =~= txt_head_models());
        lemma_header_no_commas();
    }
    let tail = shrinking_entries(
        "GPTXT",
        "Following 1 sentence is an incorrect TXT sentence with missing trailing fields",
        3,
    );
    make_group("TXT", head, tail)
}

/// The model of the full catalog: every group, in emission order.
pub open spec fn catalog_models() -> Seq<GroupModel> {
    seq![
        GroupModel { label: "GLC"@, entries: glc_models() },
        GroupModel { label: "DPT"@, entries: dpt_models() },
        GroupModel { label: "HDT"@, entries: hdt_models() },
        GroupModel { label: "GGA"@, entries: gga_models() },
        GroupModel { label: "GLL"@, entries: gll_models() },
        GroupModel { label: "GST"@, entries: gst_models() },
        GroupModel { label: "ROT"@, entries: rot_models() },
        GroupModel { label: "VBW"@, entries: vbw_models() },
        GroupModel { label: "VHW"@, entries: vhw_models() },
        GroupModel { label: "VLW"@, entries: vlw_models() },
        GroupModel { label: "VTG"@, entries: vtg_models() },
        GroupModel { label: "ZDA"@, entries: zda_models() },
        GroupModel { label: "TXT"@, entries: txt_models() },
    ]
}

/// Builds the full test-vector catalog. The result's model is pinned to
/// `catalog_models()`, so the enumeration is deterministic: every build
/// carries the same annotations, fault kinds and payloads in the same
/// order.
pub fn catalog() -> (r: Vec<Group>)
    ensures
        groups_model(r@) == catalog_models(),
{
    let mut v: Vec<Group> = Vec::new();
    v.push(glc_group());
    v.push(dpt_group());
    v.push(hdt_group());
    v.push(gga_group());
    v.push(gll_group());
    v.push(gst_group());
    v.push(rot_group());
    v.push(vbw_group());
    v.push(vhw_group());
    v.push(vlw_group());
    v.push(vtg_group());
    v.push(zda_group());
    v.push(txt_group());
    proof {
        assert(groups_model(v@) =~= catalog_models());
    }
    v
}

/// The catalog is finite and restartable: any two enumerations that meet
/// the catalog contract carry identical models, in identical order.
pub proof fn lemma_catalog_restartable(c1: Seq<Group>, c2: Seq<Group>)
    requires
        groups_model(c1) == catalog_models(),
        groups_model(c2) == catalog_models(),
    ensures
        groups_model(c1) == groups_model(c2),
{
}

/// A group opens with its positive control: a non-empty entry sequence
/// whose first entry carries no fault.
pub open spec fn positive_control_first(es: Seq<EntryModel>) -> bool {
    es.len() > 0 && es[0].fault == FaultKind::Valid
}

/// In a group that opens with its positive control, every entry with a
/// fault kind other than `Valid` is preceded by a fault-free entry of the
/// same group.
pub proof fn lemma_positive_control_precedes(es: Seq<EntryModel>, j: int)
    requires
        positive_control_first(es),
        0 <= j < es.len(),
        es[j].fault != FaultKind::Valid,
    ensures
        exists|i: int| 0 <= i < j && (#[trigger] es[i].fault) == FaultKind::Valid,
{
    assert(0 <= 0 < j && es[0].fault == FaultKind::Valid);
}

/// Every sentence-type group of the catalog opens with its positive
/// control.
pub proof fn lemma_catalog_positive_controls()
    ensures
        forall|i: int|
            0 <= i < catalog_models().len() ==> positive_control_first(
                #[trigger] catalog_models()[i].entries,
            ),
{
    assert(positive_control_first(glc_models()));
    assert(positive_control_first(dpt_models()));
    assert(positive_control_first(hdt_models()));
    assert(positive_control_first(gga_models()));
    assert(positive_control_first(gll_models()));
    assert(positive_control_first(gst_models()));
    assert(positive_control_first(rot_models()));
    assert(positive_control_first(vbw_models()));
    assert(positive_control_first(vhw_models()));
    assert(positive_control_first(vlw_models()));
    assert(positive_control_first(vtg_models()));
    assert(positive_control_first(zda_models()));
    assert(positive_control_first(txt_models()));
    assert forall|i: int| 0 <= i < catalog_models().len() implies positive_control_first(
        #[trigger] catalog_models()[i].entries,
    ) by {
        if i == 0 {
            assert(catalog_models()[i].entries == glc_models());
        } else if i == 1 {
            assert(catalog_models()[i].entries == dpt_models());
        } else if i == 2 {
            assert(catalog_models()[i].entries == hdt_models());
        } else if i == 3 {
            assert(catalog_models()[i].entries == gga_models());
        } else if i == 4 {
            assert(catalog_models()[i].entries == gll_models());
        } else if i == 5 {
            assert(catalog_models()[i].entries == gst_models());
        } else if i == 6 {
            assert(catalog_models()[i].entries == rot_models());
        } else if i == 7 {
            assert(catalog_models()[i].entries == vbw_models());
        } else if i == 8 {
            assert(catalog_models()[i].entries == vhw_models());
        } else if i == 9 {
            assert(catalog_models()[i].entries == vlw_models());
        } else if i == 10 {
            assert(catalog_models()[i].entries == vtg_models());
        } else if i == 11 {
            assert(catalog_models()[i].entries == zda_models());
        } else {
            assert(catalog_models()[i].entries == txt_models());
        }
    }
}

/// From `start` on, a group's entries form a missing-trailing-fields
/// tail whose field counts strictly decrease, down to zero fields at the
/// last entry.
pub open spec fn shrinking_tail(es: Seq<EntryModel>, start: int) -> bool {
    &&& 0 <= start <= es.len()
    &&& forall|k: int|
        start <= k < es.len() ==> (#[trigger] es[k].fault) == FaultKind::MissingTrailingFields
    &&& forall|k: int|
        start <= k < es.len() - 1 ==> #[trigger] model_field_count(es[k]) > model_field_count(
            es[k + 1],
        )
    &&& start < es.len() ==> model_field_count(es[es.len() - 1]) == 0
}

/// A group assembled from hand-written entries followed by a
/// shrinking-arity tail has the strictly-decreasing property from the
/// end of the hand-written part on.
proof fn lemma_group_shrinking(
    head: Seq<EntryModel>,
    header: Seq<char>,
    note: Seq<char>,
    n: nat,
)
    requires
        field_count(header) == 0,
    ensures
        shrinking_tail(head + shrink_models(header, note, n), head.len() as int),
{
    lemma_shrinking_arity(header, note, n);
    let es = head + shrink_models(header, note, n);
    let start = head.len() as int;
    assert forall|k: int| start <= k < es.len() implies (#[trigger] es[k].fault)
        == FaultKind::MissingTrailingFields by {
        assert(es[k] == shrink_models(header, note, n)[k - start]);
    }
    assert forall|k: int| start <= k < es.len() - 1 implies #[trigger] model_field_count(es[k])
        > model_field_count(es[k + 1]) by {
        assert(es[k] == shrink_models(header, note, n)[k - start]);
        assert(es[k + 1] == shrink_models(header, note, n)[k + 1 - start]);
    }
    if start < es.len() {
        assert(es[es.len() - 1] == shrink_models(header, note, n)[n - 1]);
    }
}

/// Every sentence-type group of the catalog ends in a shrinking-arity
/// tail: strictly decreasing field counts, down to zero fields.
pub proof fn lemma_catalog_shrinking_tails()
    ensures
        shrinking_tail(glc_models(), glc_head_models().len() as int),
        shrinking_tail(dpt_models(), dpt_head_models().len() as int),
        shrinking_tail(hdt_models(), hdt_head_models().len() as int),
        shrinking_tail(gga_models(), gga_head_models().len() as int),
        shrinking_tail(gll_models(), gll_head_models().len() as int),
        shrinking_tail(gst_models(), gst_head_models().len() as int),
        shrinking_tail(rot_models(), rot_head_models().len() as int),
        shrinking_tail(vbw_models(), vbw_head_models().len() as int),
        shrinking_tail(vhw_models(), vhw_head_models().len() as int),
        shrinking_tail(vlw_models(), vlw_head_models().len() as int),
        shrinking_tail(vtg_models(), vtg_head_models().len() as int),
        shrinking_tail(zda_models(), zda_head_models().len() as int),
        shrinking_tail(txt_models(), txt_head_models().len() as int),
{
    lemma_header_no_commas();
    lemma_group_shrinking(
        glc_head_models(),
        "GPGLC"@,
        "Following 1 sentence is an incorrect GLC sentence with missing trailing fields"@,
        14,
    );
    lemma_group_shrinking(
        dpt_head_models(),
        "INDPT"@,
        "Following 1 sentence is an incorrect DPT sentence with missing trailing fields"@,
        3,
    );
    lemma_group_shrinking(
        hdt_head_models(),
        "GPHDT"@,
        "Following 1 sentence is an incorrect HDT sentence with missing trailing fields"@,
        2,
    );
    lemma_group_shrinking(
        gga_head_models(),
        "GNGGA"@,
        "Following 1 sentence is an incorrect GGA sentence with missing trailing fields"@,
        14,
    );
    lemma_group_shrinking(
        gll_head_models(),
        "GNGLL"@,
        "Following 1 sentence is an incorrect GLL sentence with missing trailing fields"@,
        7,
    );
    lemma_group_shrinking(
        gst_head_models(),
        "GPGST"@,
        "Following 1 sentence is an incorrect GST sentence with missing trailing fields"@,
        8,
    );
    lemma_group_shrinking(
        rot_head_models(),
        "GPROT"@,
        "Following 1 sentence is an incorrect ROT sentence with missing trailing fields"@,
        2,
    );
    lemma_group_shrinking(
        vbw_head_models(),
        "GPVBW"@,
        "Following 1 sentence is an incorrect VBW sentence with missing trailing fields"@,
        10,
    );
    lemma_group_shrinking(
        vhw_head_models(),
        "GPVHW"@,
        "Following 1 sentence is an incorrect VHW sentence with missing trailing fields"@,
        8,
    );
    lemma_group_shrinking(
        vlw_head_models(),
        "GPVLW"@,
        "Following 1 sentence is an incorrect VLW sentence with missing trailing fields"@,
        8,
    );
    lemma_group_shrinking(
        vtg_head_models(),
        "GPVTG"@,
        "Following 1 sentence is an incorrect VTG sentence with missing trailing fields"@,
        9,
    );
    lemma_group_shrinking(
        zda_head_models(),
        "GPZDA"@,
        "Following 1 sentence is an incorrect ZDA sentence with missing trailing fields"@,
        6,
    );
    lemma_group_shrinking(
        txt_head_models(),
        "GPTXT"@,
        "Following 1 sentence is an incorrect TXT sentence with missing trailing fields"@,
        3,
    );
}

} // verus!
