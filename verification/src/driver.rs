//! The transmission driver: walks the catalog in order and produces, for
//! each test vector, first the framed annotation sentence describing it
//! and then the vector's payload. Emission is strictly sequential; the
//! order of the produced datagrams is part of the contract, because a
//! downstream observer correlates vectors to expected parser outcomes by
//! position in the stream.

use vstd::prelude::*;
use vstd::string::*;
use crate::catalog::{Entry, EntryModel, Group, GroupModel, Payload, PayloadModel, entries_model,
    groups_model};
use crate::framer::{frame, frame_spec, frame_with_checksum, frame_with_spec};

verus! {

/// The free-text sentence body that carries an annotation: the TXT
/// header with one-of-one message numbering, then the text.
pub open spec fn annotation_body_spec(text: Seq<char>) -> Seq<char> {
    "GPTXT,01,01,"@ + text
}

/// Builds the annotation sentence body for `text`.
pub fn annotation_body(text: &str) -> (r: String)
    ensures
        r@ == annotation_body_spec(text@),
{
    let s = String::from_str("GPTXT,01,01,");
    s.concat(text)
}

/// What is transmitted for a payload: the default framing for a
/// well-formed body, the framing with the caller-supplied checksum for an
/// override, and the bytes themselves, untouched, for a raw payload.
pub open spec fn rendered_spec(p: PayloadModel) -> Seq<char> {
    match p {
        PayloadModel::WellFormed { body } => frame_spec(body),
        PayloadModel::ChecksumOverride { body, checksum } => frame_with_spec(body, checksum),
        PayloadModel::Raw { bytes } => bytes,
    }
}

/// Resolves a payload to the datagram to transmit. The raw path hands
/// its bytes through unmodified; the framer is not involved.
pub fn render_payload(p: &Payload) -> (r: String)
    ensures
        r@ == rendered_spec(p@),
{
    match p {
        Payload::WellFormed { body } => frame(body.as_str()),
        Payload::ChecksumOverride { body, checksum } => frame_with_checksum(
            body.as_str(),
            *checksum,
        ),
        Payload::Raw { bytes } => String::from_str(bytes.as_str()),
    }
}

/// The two datagrams one entry contributes, in order: the framed
/// annotation sentence, then the payload.
pub open spec fn entry_datagrams(e: EntryModel) -> Seq<Seq<char>> {
    seq![frame_spec(annotation_body_spec(e.note)), rendered_spec(e.payload)]
}

/// The datagrams of a sequence of entries, in order.
pub open spec fn group_datagrams(es: Seq<EntryModel>) -> Seq<Seq<char>>
    decreases es.len(),
{
    if es.len() == 0 {
        Seq::empty()
    } else {
        group_datagrams(es.drop_last()) + entry_datagrams(es.last())
    }
}

/// The datagrams of a sequence of groups, in order.
pub open spec fn catalog_datagrams(gs: Seq<GroupModel>) -> Seq<Seq<char>>
    decreases gs.len(),
{
    if gs.len() == 0 {
        Seq::empty()
    } else {
        catalog_datagrams(gs.drop_last()) + group_datagrams(gs.last().entries)
    }
}

/// Produces the two datagrams of one entry: the framed annotation, then
/// the payload.
pub fn emit_entry(e: &Entry) -> (r: (String, String))
    ensures
        r.0@ == frame_spec(annotation_body_spec(e@.note)),
        r.1@ == rendered_spec(e@.payload),
{
    let ann = annotation_body(e.note.as_str());
    (frame(ann.as_str()), render_payload(&e.payload))
}

/// Walks the whole catalog in order and returns every datagram to
/// transmit, strictly sequentially: for each entry of each group, the
/// framed annotation immediately precedes the entry's payload, and no
/// datagram is buffered, reordered, or dropped.
pub fn emit_catalog(groups: &Vec<Group>) -> (r: Vec<String>)
    ensures
        r.deep_view() == catalog_datagrams(groups_model(groups@)),
{
    let mut r: Vec<String> = Vec::new();
    let mut i: usize = 0;
    while i < groups.len()
        invariant
            i <= groups.len(),
            r.deep_view() == catalog_datagrams(groups_model(groups@.subrange(0, i as int))),
        decreases groups.len() - i,
    {
        let g = &groups[i];
        let mut j: usize = 0;
        while j < g.entries.len()
            invariant
                i < groups.len(),
                j <= g.entries.len(),
                g == groups@[i as int],
                r.deep_view() == catalog_datagrams(groups_model(groups@.subrange(0, i as int)))
                    + group_datagrams(entries_model(g.entries@.subrange(0, j as int))),
            decreases g.entries.len() - j,
        {
            let (ann, payload) = emit_entry(&g.entries[j]);
            let ghost r0 = r.deep_view();
            let ghost annv = ann@;
            let ghost pv = payload@;
            r.push(ann);
            r.push(payload);
            proof {
                let em = g.entries@[j as int]@;
                let es = entries_model(g.entries@.subrange(0, j + 1));
                assert(r.deep_view() =~= r0 + seq![annv, pv]);
                assert(es.drop_last() =~= entries_model(g.entries@.subrange(0, j as int)));
                assert(es.last() == em);
                assert(entry_datagrams(em) =~= seq![annv, pv]);
                assert(r.deep_view() =~= catalog_datagrams(
                    groups_model(groups@.subrange(0, i as int)),
                ) + group_datagrams(es));
            }
            j = j + 1;
        }
        proof {
            let gm = groups_model(groups@.subrange(0, i + 1));
            assert(gm.drop_last() =~= groups_model(groups@.subrange(0, i as int)));
            assert(gm.last() == groups@[i as int]@);
            assert(g.entries@.subrange(0, g.entries@.len() as int) =~= g.entries@);
            assert(r.deep_view() =~= catalog_datagrams(gm));
        }
        i = i + 1;
    }
    proof {
        assert(groups@.subrange(0, groups@.len() as int) =~= groups@);
    }
    r
}

} // verus!
