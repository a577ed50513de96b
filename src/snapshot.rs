use vstd::prelude::*;

use crate::option_set::PairView;
use crate::printer::Printer;

verus! {

/// How long a saved list of printers stays valid: 120 seconds, in nanoseconds.
pub const SNAPSHOT_MAX_AGE_NANOS: u128 = 120000000000;

/// What bincode's standard encoding, limited to 1 MiB, decodes from the start of the bytes as a list of (human name,
/// identifier) string pairs, when it succeeds; it depends on the bytes alone.
pub uninterp spec fn snapshot_decoded(bytes: Seq<u8>) -> Option<Seq<PairView>>;

/// The bytes of bincode's standard encoding of a list of (human name,
/// identifier) string pairs; they depend on the pairs alone.
pub uninterp spec fn snapshot_encoded(entries: Seq<PairView>) -> Seq<u8>;

/// Relies on `bincode::decode_from_slice` with the standard configuration and
/// a limit of 1 MiB: decodes a list of string pairs from the start of the bytes, or
/// reports an error. The limit bounds every length that decoding allocates for,
/// so no input makes it panic.
#[verifier::external_body]
fn decode_pairs(bytes: &[u8]) -> (r: Option<Vec<(String, String)>>)
    ensures
        r is Some <==> snapshot_decoded(bytes@) is Some,
        r is Some ==> snapshot_decoded(bytes@)->Some_0 == r->Some_0@.map_values(
            |p: (String, String)| (p.0@, p.1@),
        ),
{
    let config = bincode::config::standard().with_limit::<1048576>();
    bincode::decode_from_slice::<Vec<(String, String)>, _>(bytes, config).ok().map(
        |(pairs, _)| pairs,
    )
}

/// Relies on `bincode::encode_to_vec` with the standard configuration: the
/// encoding of a list of string pairs. Writing into a `Vec` never fails and the
/// standard configuration sets no limit, so the encoder always succeeds.
#[verifier::external_body]
fn encode_pairs(pairs: &Vec<(String, String)>) -> (r: Option<Vec<u8>>)
    ensures
        r is Some,
        r->Some_0@ == snapshot_encoded(pairs@.map_values(|p: (String, String)| (p.0@, p.1@))),
{
    bincode::encode_to_vec(pairs, bincode::config::standard()).ok()
}

/// What is kept of a printer between two runs: its human-friendly name and
/// its identifier.
#[derive(Clone, Debug, PartialEq, Eq)]
pub struct PrinterSnapshot {
    pub human_name: String,
    pub identifier: String,
}

impl PrinterSnapshot {
    /// The snapshot of a printer.
    pub fn from_printer(printer: &Printer) -> (r: PrinterSnapshot)
        ensures
            r.human_name@ == printer.spec_human_name(),
            r.identifier@ == printer.identifier@,
    {
        PrinterSnapshot {
            human_name: printer.get_human_name().clone(),
            identifier: printer.identifier.clone(),
        }
    }
}

/// The (human name, identifier) characters of each snapshot entry.
pub open spec fn entries_view(entries: Seq<PrinterSnapshot>) -> Seq<PairView> {
    entries.map_values(|e: PrinterSnapshot| (e.human_name@, e.identifier@))
}

/// The entries that saving `printers` stores, in order.
pub open spec fn snapshot_of(printers: Seq<Printer>) -> Seq<PairView> {
    printers.map_values(|p: Printer| (p.spec_human_name(), p.identifier@))
}

/// Whether a snapshot last written `elapsed_nanos` ago is still valid: it is
/// while no more than the maximum age has passed.
pub open spec fn is_fresh(elapsed_nanos: u128) -> bool {
    elapsed_nanos <= SNAPSHOT_MAX_AGE_NANOS
}

/// The snapshot entries of decoded (human name, identifier) pairs, in order.
pub fn entries_from_pairs(pairs: &Vec<(String, String)>) -> (r: Vec<PrinterSnapshot>)
    ensures
        entries_view(r@) == pairs@.map_values(|p: (String, String)| (p.0@, p.1@)),
{
    let mut entries: Vec<PrinterSnapshot> = Vec::new();
    let mut i: usize = 0;
    while i < pairs.len()
        invariant
            i <= pairs.len(),
            entries.len() == i,
            forall|k: int|
                0 <= k < i ==> (#[trigger] entries@[k]).human_name@ == pairs@[k].0@
                    && entries@[k].identifier@ == pairs@[k].1@,
        decreases pairs.len() - i,
    {
        let entry = PrinterSnapshot {
            human_name: pairs[i].0.clone(),
            identifier: pairs[i].1.clone(),
        };
        entries.push(entry);
        i += 1;
    }
    assert(entries_view(entries@) =~= pairs@.map_values(|p: (String, String)| (p.0@, p.1@)));
    entries
}

/// Reads a saved list of printers from the contents of the snapshot file,
/// last modified `elapsed_nanos` ago. Returns `None` when the snapshot is
/// stale or its contents do not decode.
pub fn open(contents: &[u8], elapsed_nanos: u128) -> (r: Option<Vec<PrinterSnapshot>>)
    ensures
        r is Some <==> is_fresh(elapsed_nanos) && snapshot_decoded(contents@) is Some,
        r is Some ==> entries_view(r->Some_0@) == snapshot_decoded(contents@)->Some_0,
{
    if elapsed_nanos > SNAPSHOT_MAX_AGE_NANOS {
        return None;
    }
    match decode_pairs(contents) {
        Some(pairs) => Some(entries_from_pairs(&pairs)),
        None => None,
    }
}

/// The (human name, identifier) pairs that stand for `printers` in a snapshot,
/// in order.
pub fn snapshot_pairs(printers: &Vec<Printer>) -> (r: Vec<(String, String)>)
    ensures
        r@.map_values(|p: (String, String)| (p.0@, p.1@)) == snapshot_of(printers@),
{
    let mut pairs: Vec<(String, String)> = Vec::new();
    let mut i: usize = 0;
    while i < printers.len()
        invariant
            i <= printers.len(),
            pairs.len() == i,
            forall|k: int|
                0 <= k < i ==> (#[trigger] pairs@[k]).0@ == printers@[k].spec_human_name()
                    && pairs@[k].1@ == printers@[k].identifier@,
        decreases printers.len() - i,
    {
        let human = printers[i].get_human_name().clone();
        let id = printers[i].identifier.clone();
        pairs.push((human, id));
        i += 1;
    }
    assert(pairs@.map_values(|p: (String, String)| (p.0@, p.1@)) =~= snapshot_of(printers@));
    pairs
}

/// The bytes that store `printers`, already in listing order, as a snapshot:
/// one (human name, identifier) entry per printer.
pub fn save(printers: &Vec<Printer>) -> (r: Vec<u8>)
    ensures
        r@ == snapshot_encoded(snapshot_of(printers@)),
{
    let pairs = snapshot_pairs(printers);
    match encode_pairs(&pairs) {
        Some(bytes) => bytes,
        None => Vec::new(),
    }
}

/// The first entry whose identifier is `name`, else the first whose human
/// name is `name`.
pub fn find_by_name(entries: &Vec<PrinterSnapshot>, name: &str) -> (r: Option<usize>)
    ensures
        match r {
            Some(i) => i < entries@.len() && (
            // a match by identifier, the first one
            (entries@[i as int].identifier@ == name@ && forall|k: int|
                0 <= k < i ==> entries@[k].identifier@ != name@) ||
            // no match by identifier, and the first match by human name
            ((forall|k: int| 0 <= k < entries@.len() ==> entries@[k].identifier@ != name@)
                && entries@[i as int].human_name@ == name@ && forall|k: int|
                0 <= k < i ==> entries@[k].human_name@ != name@)),
            None => forall|k: int|
                0 <= k < entries@.len() ==> entries@[k].identifier@ != name@
                    && entries@[k].human_name@ != name@,
        },
{
    let key = String::from_str(name);
    let mut i: usize = 0;
    while i < entries.len()
        invariant
            i <= entries.len(),
            key@ == name@,
            forall|k: int| 0 <= k < i ==> entries@[k].identifier@ != name@,
        decreases entries.len() - i,
    {
        if entries[i].identifier == key {
            return Some(i);
        }
        i += 1;
    }
    let mut j: usize = 0;
    while j < entries.len()
        invariant
            j <= entries.len(),
            key@ == name@,
            forall|k: int| 0 <= k < entries@.len() ==> entries@[k].identifier@ != name@,
            forall|k: int| 0 <= k < j ==> entries@[k].human_name@ != name@,
        decreases entries.len() - j,
    {
        if entries[j].human_name == key {
            return Some(j);
        }
        j += 1;
    }
    None
}

} // verus!
