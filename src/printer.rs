use vstd::prelude::*;

use crate::dest::CupsDestination;
use crate::option_set::PairView;

verus! {

/// The characters of a list of (name, value) string pairs.
pub open spec fn pairs_view(pairs: Seq<(String, String)>) -> Seq<PairView> {
    pairs.map_values(|p: (String, String)| (p.0@, p.1@))
}

/// The value of `key` among `pairs`; when the key repeats, the last pair wins,
/// as when the pairs are inserted into a map one after the other.
pub open spec fn lookup(pairs: Seq<PairView>, key: Seq<char>) -> Option<Seq<char>>
    decreases pairs.len(),
{
    if pairs.len() == 0 {
        None
    } else if pairs.last().0 == key {
        Some(pairs.last().1)
    } else {
        lookup(pairs.drop_last(), key)
    }
}

/// No two pairs share a name.
pub open spec fn keys_unique(pairs: Seq<PairView>) -> bool {
    forall|i: int, j: int| 0 <= i < j < pairs.len() ==> pairs[i].0 != pairs[j].0
}

/// Among pairs with unique names, a name's value is that of its one pair.
proof fn lemma_lookup_unique(pairs: Seq<PairView>, key: Seq<char>)
    requires
        keys_unique(pairs),
    ensures
        forall|i: int| 0 <= i < pairs.len() && pairs[i].0 == key ==> lookup(pairs, key) == Some(
            pairs[i].1,
        ),
        (forall|i: int| 0 <= i < pairs.len() ==> pairs[i].0 != key) ==> lookup(pairs, key) is None,
    decreases pairs.len(),
{
    if pairs.len() > 0 {
        let rest = pairs.drop_last();
        assert(keys_unique(rest));
        lemma_lookup_unique(rest, key);
        assert forall|i: int| 0 <= i < pairs.len() && pairs[i].0 == key implies lookup(pairs, key)
            == Some(pairs[i].1) by {
            if i < pairs.len() - 1 {
                assert(rest[i] == pairs[i]);
            }
        }
        if forall|i: int| 0 <= i < pairs.len() ==> pairs[i].0 != key {
            assert(pairs[pairs.len() - 1].0 != key);
            assert forall|i: int| 0 <= i < rest.len() implies rest[i].0 != key by {
                assert(rest[i] == pairs[i]);
            }
        }
    }
}

/// A printer as the library's users see it: an identifier used for every later
/// lookup, a name, an optional instance qualifier, whether it is the default,
/// and a snapshot of its attributes taken at enumeration time.
#[derive(Clone, Debug)]
pub struct Printer {
    pub identifier: String,
    pub name: String,
    pub instance: Option<String>,
    pub is_default: bool,
    /// Attributes by name; each name occurs once (see [`Printer::wf`]).
    pub options: Vec<(String, String)>,
}

/// The attribute that holds a printer's human-friendly name.
pub const PRINTER_INFO: &'static str = "printer-info";

impl Printer {
    /// The printer's attributes as (name, value) characters.
    pub open spec fn spec_options(&self) -> Seq<PairView> {
        pairs_view(self.options@)
    }

    /// Each attribute name occurs once.
    pub open spec fn wf(&self) -> bool {
        keys_unique(self.spec_options())
    }

    /// The value of the attribute `name`, if the printer has it.
    pub open spec fn spec_option(&self, name: Seq<char>) -> Option<Seq<char>> {
        lookup(self.spec_options(), name)
    }

    /// The printer-info attribute when present, else the name.
    pub open spec fn spec_human_name(&self) -> Seq<char> {
        match self.spec_option(PRINTER_INFO@) {
            Some(v) => v,
            None => self.name@,
        }
    }

    /// Returns the value of the option with the specified name.
    pub fn get_option(&self, name: &str) -> (r: Option<&String>)
        ensures
            r is Some <==> self.spec_option(name@) is Some,
            r is Some ==> r->Some_0@ == self.spec_option(name@)->Some_0,
            self.wf() ==> forall|i: int|
                0 <= i < self.spec_options().len() && (#[trigger] self.spec_options()[i]).0
                    == name@ ==> r is Some && r->Some_0@ == self.spec_options()[i].1,
            self.wf() && r is None ==> forall|i: int|
                0 <= i < self.spec_options().len() ==> (#[trigger] self.spec_options()[i]).0
                    != name@,
    {
        proof {
            if self.wf() {
                lemma_lookup_unique(self.spec_options(), name@);
            }
        }
        let ghost all = self.spec_options();
        let key = String::from_str(name);
        let mut i = self.options.len();
        assert(all.take(i as int) =~= all);
        while i > 0
            invariant
                i <= self.options.len(),
                all == self.spec_options(),
                all.len() == self.options.len(),
                key@ == name@,
                lookup(all, name@) == lookup(all.take(i as int), name@),
            decreases i,
        {
            assert(all.take(i as int).drop_last() =~= all.take(i - 1));
            assert(all.take(i as int).last() == (self.options@[i - 1].0@, self.options@[i - 1].1@));
            if self.options[i - 1].0 == key {
                return Some(&self.options[i - 1].1);
            }
            i -= 1;
        }
        None
    }

    /// Returns a human-friendly name of this printer: its printer-info
    /// attribute, or its name when it has none.
    pub fn get_human_name(&self) -> (r: &String)
        ensures
            r@ == self.spec_human_name(),
    {
        match self.get_option(PRINTER_INFO) {
            Some(v) => v,
            None => &self.name,
        }
    }

    /// Builds the printer value of a destination. The identifier and the name
    /// are both the destination's name; the attributes are the destination's
    /// options, one per name, where the last of repeated names wins.
    pub fn from_destination(dest: &CupsDestination) -> (r: Printer)
        ensures
            r.identifier@ == dest.name@,
            r.name@ == dest.name@,
            r.instance == dest.instance,
            r.is_default == dest.is_default,
            r.wf(),
            forall|k: Seq<char>| #[trigger]
                r.spec_option(k) == lookup(pairs_view(dest.options@), k),
    {
        let options = unique_options(&dest.options);
        Printer {
            identifier: dest.name.clone(),
            name: dest.name.clone(),
            instance: dest.instance.clone(),
            is_default: dest.is_default,
            options,
        }
    }
}

/// The meaning of a printer-state attribute value: 3 idle, 4 printing, 5 stopped.
pub open spec fn spec_state_description(value: Seq<char>) -> Option<Seq<char>> {
    if value == "3"@ {
        Some("idle"@)
    } else if value == "4"@ {
        Some("printing"@)
    } else if value == "5"@ {
        Some("stopped"@)
    } else {
        None
    }
}

/// Describes a printer-state attribute value in words, when it is a known state.
pub fn state_description(value: &String) -> (r: Option<&'static str>)
    ensures
        r is Some <==> spec_state_description(value@) is Some,
        r is Some ==> r->Some_0@ == spec_state_description(value@)->Some_0,
{
    if *value == String::from_str("3") {
        Some("idle")
    } else if *value == String::from_str("4") {
        Some("printing")
    } else if *value == String::from_str("5") {
        Some("stopped")
    } else {
        None
    }
}

/// The pairs with one entry per name, holding the value of its last occurrence.
fn unique_options(pairs: &Vec<(String, String)>) -> (r: Vec<(String, String)>)
    ensures
        keys_unique(pairs_view(r@)),
        forall|k: Seq<char>| #[trigger]
            lookup(pairs_view(r@), k) == lookup(pairs_view(pairs@), k),
{
    let ghost src = pairs_view(pairs@);
    let mut out: Vec<(String, String)> = Vec::new();
    let mut i: usize = 0;
    while i < pairs.len()
        invariant
            i <= pairs.len(),
            src == pairs_view(pairs@),
            keys_unique(pairs_view(out@)),
            forall|k: Seq<char>| #[trigger]
                lookup(pairs_view(out@), k) == lookup(src.take(i as int), k),
        decreases pairs.len() - i,
    {
        let key = pairs[i].0.clone();
        let value = pairs[i].1.clone();
        let ghost before = pairs_view(out@);
        assert(src.take(i + 1).drop_last() =~= src.take(i as int));
        let mut j: usize = 0;
        let mut found = false;
        while j < out.len() && !found
            invariant
                j <= out.len(),
                before == pairs_view(out@),
                found ==> j < out.len() && before[j as int].0 == key@,
                !found ==> forall|m: int| 0 <= m < j ==> before[m].0 != key@,
            decreases out.len() - j + (if found { 0int } else { 1int }),
        {
            if out[j].0 == key {
                found = true;
            } else {
                j += 1;
            }
        }
        let ghost entry = (pairs[i as int].0@, pairs[i as int].1@);
        assert(src.take(i + 1).last() == entry);
        if found {
            out.set(j, (key, value));
            proof {
                let after = pairs_view(out@);
                assert(after =~= before.update(j as int, entry));
                assert(keys_unique(after));
                assert forall|k: Seq<char>| #[trigger]
                    lookup(after, k) == lookup(src.take(i + 1), k) by {
                    lemma_lookup_unique(after, k);
                    lemma_lookup_unique(before, k);
                    if k != entry.0 {
                        if exists|m: int| 0 <= m < before.len() && before[m].0 == k {
                            let m = choose|m: int| 0 <= m < before.len() && before[m].0 == k;
                            assert(after[m] == before[m]);
                        } else {
                            assert forall|m: int| 0 <= m < after.len() implies after[m].0 != k by {
                                if m != j {
                                    assert(after[m] == before[m]);
                                }
                            }
                        }
                    } else {
                        assert(after[j as int] == entry);
                    }
                }
            }
        } else {
            out.push((key, value));
            proof {
                let after = pairs_view(out@);
                assert(after =~= before.push(entry));
                assert(after.drop_last() =~= before);
                assert forall|k: Seq<char>| #[trigger]
                    lookup(after, k) == lookup(src.take(i + 1), k) by {
                    assert(lookup(before, k) == lookup(src.take(i as int), k));
                }
                assert forall|a: int, b: int| 0 <= a < b < after.len() implies after[a].0
                    != after[b].0 by {
                    if b < before.len() {
                        assert(after[a] == before[a] && after[b] == before[b]);
                    } else {
                        assert(after[a] == before[a]);
                    }
                }
            }
        }
        i += 1;
    }
    assert(src.take(pairs.len() as int) =~= src);
    out
}

} // verus!
