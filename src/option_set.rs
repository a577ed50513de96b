use vstd::prelude::*;

use crate::cups::CupsOption;
use crate::error::PrintError;
use crate::options::{CopiesInt, PrintOptions};
use crate::text::decimal_of;

verus! {

/// What `str::to_lowercase` returns for a string; it depends on the characters alone.
pub uninterp spec fn lowercase_of(s: Seq<char>) -> Seq<char>;

/// The ASCII lowercase of a character: `A`..=`Z` become `a`..=`z`, others stay.
pub open spec fn ascii_lower(c: char) -> char {
    if 'A' <= c && c <= 'Z' {
        ((c as u32) + 32) as char
    } else {
        c
    }
}

/// Relies on `str::to_lowercase`: the lowercase form of the string; for ASCII
/// input that is the ASCII lowercase of each character.
#[verifier::external_body]
fn to_lowercase(s: &str) -> (r: String)
    ensures
        r@ == lowercase_of(s@),
        (forall|i: int| 0 <= i < s@.len() ==> (s@[i] as u32) < 128) ==> r@ == s@.map_values(
            |c: char| ascii_lower(c),
        ),
{
    s.to_lowercase()
}

/// One option as it is checked with a destination and sent to the spooler:
/// the native key and value, and the human-readable name and value used in errors.
#[derive(Clone, Debug, PartialEq, Eq)]
pub struct OptionRequest {
    pub name: String,
    pub value: String,
    pub label: String,
    pub human: String,
}

/// The values of an [`OptionRequest`]: native key, native value, label, human value.
pub type RequestView = (Seq<char>, Seq<char>, Seq<char>, Seq<char>);

impl View for OptionRequest {
    type V = RequestView;

    open spec fn view(&self) -> RequestView {
        (self.name@, self.value@, self.label@, self.human@)
    }
}

/// The request for one option value.
pub open spec fn request_of<O: CupsOption>(o: O) -> RequestView {
    (O::spec_cups_name(), o.spec_cups_value(), lowercase_of(O::spec_name()), o.spec_human())
}

/// The requests for an optional field: none when it is absent.
pub open spec fn requests_of<O: CupsOption>(o: Option<O>) -> Seq<RequestView> {
    match o {
        Some(v) => seq![request_of(v)],
        None => Seq::empty(),
    }
}

/// The requests for every present field of `o`, in the order of the fields.
pub open spec fn requested(o: PrintOptions) -> Seq<RequestView> {
    requests_of(o.copies) + requests_of(o.finishings) + requests_of(o.media_size) + requests_of(
        o.media_source,
    ) + requests_of(o.media_type) + requests_of(o.number_up) + requests_of(o.orientation)
        + requests_of(o.color_mode) + requests_of(o.quality) + requests_of(o.sides_mode)
}

/// Builds the request for one option value.
pub fn option_request<O: CupsOption>(option: &O) -> (r: OptionRequest)
    ensures
        r@ == request_of(*option),
{
    let name = String::from_str(O::get_cups_option_name());
    let value = option.get_cups_option_value();
    let label = to_lowercase(O::get_name());
    let human = option.to_human_string();
    OptionRequest { name, value, label, human }
}

fn push_request<O: CupsOption>(requests: &mut Vec<OptionRequest>, option: &Option<O>)
    ensures
        final(requests)@.map_values(|r: OptionRequest| r@) == old(requests)@.map_values(
            |r: OptionRequest| r@,
        ) + requests_of(*option),
{
    let ghost before = requests@.map_values(|r: OptionRequest| r@);
    if let Some(o) = option {
        let r = option_request(o);
        requests.push(r);
        assert(requests@.map_values(|r: OptionRequest| r@) =~= before + requests_of(*option));
    } else {
        assert(requests@.map_values(|r: OptionRequest| r@) =~= before + requests_of(*option));
    }
}

/// The requests for every option that is set in `options`, in a fixed order:
/// copies, finishings, media size, media source, media type, number-up,
/// orientation, color mode, quality, sides mode.
pub fn requested_options(options: &PrintOptions) -> (r: Vec<OptionRequest>)
    ensures
        r@.map_values(|q: OptionRequest| q@) == requested(*options),
{
    let mut requests: Vec<OptionRequest> = Vec::new();
    assert(requests@.map_values(|q: OptionRequest| q@) =~= Seq::<RequestView>::empty());
    push_request(&mut requests, &options.copies);
    push_request(&mut requests, &options.finishings);
    push_request(&mut requests, &options.media_size);
    push_request(&mut requests, &options.media_source);
    push_request(&mut requests, &options.media_type);
    push_request(&mut requests, &options.number_up);
    push_request(&mut requests, &options.orientation);
    push_request(&mut requests, &options.color_mode);
    push_request(&mut requests, &options.quality);
    push_request(&mut requests, &options.sides_mode);
    requests
}

/// A native (key, value) pair as its characters.
pub type PairView = (Seq<char>, Seq<char>);

/// The outcome of checking `reqs` against the destination's verdicts, one per
/// request: every pair in order when all are accepted, else the first rejected request.
pub open spec fn negotiated(reqs: Seq<RequestView>, verdicts: Seq<bool>) -> Result<
    Seq<PairView>,
    RequestView,
>
    decreases reqs.len(),
{
    if reqs.len() == 0 {
        Ok(Seq::empty())
    } else {
        let n = reqs.len() - 1;
        match negotiated(reqs.take(n), verdicts) {
            Err(q) => Err(q),
            Ok(pairs) => if verdicts[n] {
                Ok(pairs.push((reqs[n].0, reqs[n].1)))
            } else {
                Err(reqs[n])
            },
        }
    }
}

/// Once a prefix of the requests is refused, every longer prefix is refused
/// with the same request.
proof fn lemma_refusal_persists(reqs: Seq<RequestView>, verdicts: Seq<bool>, k: int, m: int)
    requires
        0 <= k <= m <= reqs.len(),
        negotiated(reqs.take(k), verdicts) is Err,
    ensures
        negotiated(reqs.take(m), verdicts) == negotiated(reqs.take(k), verdicts),
    decreases m - k,
{
    if m > k {
        lemma_refusal_persists(reqs, verdicts, k, m - 1);
        assert(reqs.take(m).take(m - 1) =~= reqs.take(m - 1));
    }
}

/// Negotiation succeeds exactly when every request is accepted, and then
/// yields the native pair of every request, in order.
pub proof fn lemma_negotiation_accepts_all(reqs: Seq<RequestView>, verdicts: Seq<bool>)
    requires
        verdicts.len() == reqs.len(),
    ensures
        negotiated(reqs, verdicts) is Ok <==> forall|i: int| 0 <= i < reqs.len() ==> verdicts[i],
        negotiated(reqs, verdicts) is Ok ==> negotiated(reqs, verdicts)->Ok_0 == reqs.map_values(
            |q: RequestView| (q.0, q.1),
        ),
    decreases reqs.len(),
{
    if reqs.len() > 0 {
        let n = reqs.len() - 1;
        let pre = reqs.take(n);
        lemma_negotiation_accepts_all_prefix(reqs, verdicts, n);
        if negotiated(reqs, verdicts) is Ok {
            assert(reqs.map_values(|q: RequestView| (q.0, q.1)) =~= pre.map_values(
                |q: RequestView| (q.0, q.1),
            ).push((reqs[n].0, reqs[n].1)));
        }
        if forall|i: int| 0 <= i < reqs.len() ==> verdicts[i] {
            assert(verdicts[n]);
        }
    }
}

proof fn lemma_negotiation_accepts_all_prefix(
    reqs: Seq<RequestView>,
    verdicts: Seq<bool>,
    k: int,
)
    requires
        0 <= k <= reqs.len(),
        verdicts.len() == reqs.len(),
    ensures
        negotiated(reqs.take(k), verdicts) is Ok <==> forall|i: int| 0 <= i < k ==> verdicts[i],
        negotiated(reqs.take(k), verdicts) is Ok ==> negotiated(reqs.take(k), verdicts)->Ok_0
            == reqs.take(k).map_values(|q: RequestView| (q.0, q.1)),
    decreases k,
{
    if k > 0 {
        lemma_negotiation_accepts_all_prefix(reqs, verdicts, k - 1);
        assert(reqs.take(k).take(k - 1) =~= reqs.take(k - 1));
        assert(reqs.take(k).map_values(|q: RequestView| (q.0, q.1)) =~= reqs.take(k - 1).map_values(
            |q: RequestView| (q.0, q.1),
        ).push((reqs[k - 1].0, reqs[k - 1].1)));
    } else {
        assert(reqs.take(0).map_values(|q: RequestView| (q.0, q.1)) =~= Seq::<PairView>::empty());
    }
}

/// A request that the destination refuses stops the submission: negotiation
/// fails, naming the first refused request. `add_options` then returns an
/// error and no validated option list, and `CupsJob::try_new` takes nothing
/// else, so no job is created in that submission.
pub proof fn lemma_refused_request_stops_submission(
    reqs: Seq<RequestView>,
    verdicts: Seq<bool>,
    k: int,
)
    requires
        verdicts.len() == reqs.len(),
        0 <= k < reqs.len(),
        !verdicts[k],
        forall|i: int| 0 <= i < k ==> verdicts[i],
    ensures
        negotiated(reqs, verdicts) == Err::<Seq<PairView>, RequestView>(reqs[k]),
{
    lemma_negotiation_accepts_all_prefix(reqs, verdicts, k);
    assert(reqs.take(k + 1).take(k) =~= reqs.take(k));
    lemma_refusal_persists(reqs, verdicts, k + 1, reqs.len() as int);
    assert(reqs.take(reqs.len() as int) =~= reqs);
}

/// Options that set only the number of copies make one request, `copies`
/// with the count in decimal: when the destination accepts it, the option list
/// is exactly that one pair; when it refuses it, negotiation fails on it, with
/// the count as the human-readable value.
pub proof fn lemma_copies_only_negotiation(o: PrintOptions, copies: CopiesInt)
    requires
        o.copies == Some(copies),
        o.finishings is None,
        o.media_size is None,
        o.media_source is None,
        o.media_type is None,
        o.number_up is None,
        o.orientation is None,
        o.color_mode is None,
        o.quality is None,
        o.sides_mode is None,
    ensures
        requested(o) == seq![request_of(copies)],
        negotiated(requested(o), seq![true]) == Ok::<Seq<PairView>, RequestView>(
            seq![("copies"@, decimal_of(copies.0 as int))],
        ),
        negotiated(requested(o), seq![false]) == Err::<Seq<PairView>, RequestView>(
            request_of(copies),
        ),
        request_of(copies).3 == decimal_of(copies.0 as int),
{
    let reqs = requested(o);
    assert(reqs =~= seq![request_of(copies)]);
    assert(reqs.take(0) =~= Seq::<RequestView>::empty());
    assert(negotiated(reqs.take(0), seq![true]) == Ok::<Seq<PairView>, RequestView>(Seq::empty()));
    assert(negotiated(reqs.take(0), seq![false]) == Ok::<Seq<PairView>, RequestView>(Seq::empty()));
    assert(negotiated(reqs, seq![true]) == Ok::<Seq<PairView>, RequestView>(
        Seq::<PairView>::empty().push((reqs[0].0, reqs[0].1)),
    ));
    assert(Seq::<PairView>::empty().push((reqs[0].0, reqs[0].1)) =~= seq![
        ("copies"@, decimal_of(copies.0 as int)),
    ]);
}

/// An accumulating, append-only list of native (key, value) option pairs, in
/// the order they were added, with a mark telling whether the destination
/// accepted every pair in a negotiation ([`add_options`]).
#[derive(Debug)]
pub struct CupsOptions {
    opts: Vec<(String, String)>,
    validated: bool,
}

impl View for CupsOptions {
    type V = Seq<PairView>;

    closed spec fn view(&self) -> Seq<PairView> {
        self.opts@.map_values(|p: (String, String)| (p.0@, p.1@))
    }
}

impl CupsOptions {
    /// Whether the destination accepted every pair of this list in a
    /// negotiation; a job is only created with such a list.
    pub closed spec fn is_validated(&self) -> bool {
        self.validated
    }

    /// Whether the destination accepted every pair of this list.
    pub fn validated(&self) -> (r: bool)
        ensures
            r == self.is_validated(),
    {
        self.validated
    }

    /// Creates an empty list of options, not yet validated.
    pub fn new() -> (r: Self)
        ensures
            r@ == Seq::<PairView>::empty(),
            !r.is_validated(),
    {
        let r = CupsOptions { opts: Vec::new(), validated: false };
        assert(r@ =~= Seq::<PairView>::empty());
        r
    }

    /// Appends the native key and value of `option`. The pair was not checked
    /// with the destination, so the list is no longer validated.
    pub fn add<O: CupsOption>(&mut self, option: &O)
        ensures
            final(self)@ == old(self)@.push((O::spec_cups_name(), option.spec_cups_value())),
            !final(self).is_validated(),
    {
        let request = option_request(option);
        self.add_request(&request);
    }

    /// Appends the native key and value of a request; the list is no longer
    /// validated.
    pub fn add_request(&mut self, request: &OptionRequest)
        ensures
            final(self)@ == old(self)@.push((request.name@, request.value@)),
            !final(self).is_validated(),
    {
        let ghost before = self@;
        self.validated = false;
        self.opts.push((request.name.clone(), request.value.clone()));
        assert(self@ =~= before.push((request.name@, request.value@)));
    }

    /// The number of pairs.
    pub fn len(&self) -> (r: usize)
        ensures
            r == self@.len(),
    {
        self.opts.len()
    }

    /// The native key of the pair at `index`.
    pub fn name_at(&self, index: usize) -> (r: &String)
        requires
            index < self@.len(),
        ensures
            r@ == self@[index as int].0,
    {
        &self.opts[index].0
    }

    /// The native value of the pair at `index`.
    pub fn value_at(&self, index: usize) -> (r: &String)
        requires
            index < self@.len(),
        ensures
            r@ == self@[index as int].1,
    {
        &self.opts[index].1
    }

    /// Decides whether a request may be sent, from the destination's answer
    /// `supported` to it: a refusal is an error naming the option and its value.
    pub fn validate(request: &OptionRequest, supported: bool) -> (r: Result<(), PrintError>)
        ensures
            r is Ok <==> supported,
            r is Err ==> r->Err_0.is_unsupported(request.label@, request.human@),
    {
        if supported {
            Ok(())
        } else {
            Err(
                PrintError::UnsupportedOption {
                    name: request.label.clone(),
                    value: request.human.clone(),
                },
            )
        }
    }
}

/// Builds the option list of a submission from `options` and the destination's
/// verdicts, one per entry of `requested_options(options)`, in the same order.
/// Every option is validated before it is added; the first refused one ends the
/// negotiation with [`PrintError::UnsupportedOption`]. Only a list that comes
/// out of here is validated, and only a validated list creates a job.
pub fn add_options(options: &PrintOptions, verdicts: &Vec<bool>) -> (r: Result<
    CupsOptions,
    PrintError,
>)
    requires
        verdicts@.len() == requested(*options).len(),
    ensures
        match r {
            Ok(set) => set.is_validated() && negotiated(requested(*options), verdicts@) == Ok::<
                Seq<PairView>,
                RequestView,
            >(set@),
            Err(e) => negotiated(requested(*options), verdicts@) is Err && e.is_unsupported(
                negotiated(requested(*options), verdicts@)->Err_0.2,
                negotiated(requested(*options), verdicts@)->Err_0.3,
            ),
        },
{
    let requests = requested_options(options);
    let ghost reqs = requested(*options);
    let mut set = CupsOptions::new();
    let mut i: usize = 0;
    while i < requests.len()
        invariant
            i <= requests.len(),
            reqs == requested(*options),
            requests@.map_values(|q: OptionRequest| q@) == reqs,
            verdicts@.len() == reqs.len(),
            negotiated(reqs.take(i as int), verdicts@) == Ok::<Seq<PairView>, RequestView>(set@),
        decreases requests.len() - i,
    {
        let request = &requests[i];
        assert(reqs.take(i + 1).take(i as int) =~= reqs.take(i as int));
        assert(reqs[i as int] == request@);
        if let Err(e) = CupsOptions::validate(request, verdicts[i]) {
            proof {
                assert(reqs.take(i + 1)[i as int] == reqs[i as int]);
                assert(negotiated(reqs.take(i + 1), verdicts@) == Err::<Seq<PairView>, RequestView>(
                    reqs[i as int],
                ));
                lemma_refusal_persists(reqs, verdicts@, i + 1, reqs.len() as int);
                assert(reqs.take(reqs.len() as int) =~= reqs);
            }
            return Err(e);
        }
        set.add_request(request);
        i += 1;
    }
    assert(reqs.take(requests.len() as int) =~= reqs);
    set.validated = true;
    Ok(set)
}

} // verus!
