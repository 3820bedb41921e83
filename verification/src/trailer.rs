//! Trailers of a commit description and the tracking identifier among them.

use vstd::prelude::*;

verus! {

/// One `Key: value` line from the trailer paragraph of a description.
#[derive(Clone, Debug, PartialEq, Eq)]
pub struct Trailer {
    pub key: String,
    pub value: String,
}

impl View for Trailer {
    type V = (Seq<char>, Seq<char>);

    open spec fn view(&self) -> (Seq<char>, Seq<char>) {
        (self.key@, self.value@)
    }
}

/// The key/value pairs of a list of trailers, in order.
pub open spec fn trailers_view(trailers: Seq<Trailer>) -> Seq<(Seq<char>, Seq<char>)> {
    trailers.map_values(|t: Trailer| t@)
}

/// The trailers that `jj_lib::trailer::parse_description_trailers` finds in a
/// description, as key/value pairs in the order of the text.
pub uninterp spec fn description_trailers(description: Seq<char>) -> Seq<(Seq<char>, Seq<char>)>;

/// Calls `jj_lib::trailer::parse_description_trailers`. Trusted: the result
/// depends on the description alone; nothing is claimed about which lines
/// count as trailers.
#[verifier::external_body]
pub(crate) fn parse_description_trailers(description: &str) -> (trailers: Vec<Trailer>)
    ensures
        trailers_view(trailers@) == description_trailers(description@),
{
    jj_lib::trailer::parse_description_trailers(description)
        .into_iter()
        .map(|t| Trailer { key: t.key, value: t.value })
        .collect()
}

/// Key of the trailer that carries the tracking identifier.
pub open spec fn change_id_key() -> Seq<char> {
    "Change-Id"@
}

/// Number of characters of a well-formed tracking identifier.
pub const CHANGE_ID_LEN: usize = 41;

/// Values of the tracking-identifier trailers among `trailers`, in order.
pub open spec fn change_id_values(trailers: Seq<(Seq<char>, Seq<char>)>) -> Seq<Seq<char>> {
    trailers.filter(|t: (Seq<char>, Seq<char>)| t.0 == change_id_key()).map_values(
        |t: (Seq<char>, Seq<char>)| t.1,
    )
}

/// A tracking identifier has 41 characters and starts with `I`.
pub open spec fn well_formed_change_id(value: Seq<char>) -> bool {
    value.len() == 41 && value[0] == 'I'
}

/// What a description already says about its tracking identifier.
#[derive(Clone, Debug, PartialEq, Eq)]
pub enum ExistingChangeId {
    /// No tracking-identifier trailer.
    Absent,
    /// Exactly one; `well_formed` tells whether its value has the expected shape.
    Single { value: String, well_formed: bool },
    /// Two or more.
    Multiple,
}

/// The classification of a trailer list, over its key/value pairs.
pub open spec fn classify_spec(trailers: Seq<(Seq<char>, Seq<char>)>, found: ExistingChangeId) -> bool {
    let values = change_id_values(trailers);
    match found {
        ExistingChangeId::Absent => values.len() == 0,
        ExistingChangeId::Single { value, well_formed } => {
            &&& values.len() == 1
            &&& value@ == values[0]
            &&& well_formed == well_formed_change_id(values[0])
        },
        ExistingChangeId::Multiple => values.len() >= 2,
    }
}

proof fn lemma_change_id_values_step(trailers: Seq<(Seq<char>, Seq<char>)>, i: int)
    requires
        0 <= i < trailers.len(),
    ensures
        change_id_values(trailers.take(i + 1)) == if trailers[i].0 == change_id_key() {
            change_id_values(trailers.take(i)).push(trailers[i].1)
        } else {
            change_id_values(trailers.take(i))
        },
{
    reveal(Seq::filter);
    let pred = |t: (Seq<char>, Seq<char>)| t.0 == change_id_key();
    assert(trailers.take(i + 1).drop_last() =~= trailers.take(i));
    assert(trailers.take(i + 1).last() == trailers[i]);
    if pred(trailers[i]) {
        assert(trailers.take(i + 1).filter(pred) == trailers.take(i).filter(pred).push(trailers[i]));
        assert(change_id_values(trailers.take(i + 1)) =~= change_id_values(trailers.take(i)).push(
            trailers[i].1,
        ));
    }
}

/// Whether `value` has the shape of a tracking identifier.
pub fn is_well_formed_change_id(value: &str) -> (ok: bool)
    ensures
        ok == well_formed_change_id(value@),
{
    value.unicode_len() == CHANGE_ID_LEN && value.get_char(0) == 'I'
}

/// Finds the tracking identifier among the trailers of a description.
pub fn classify_trailers(trailers: &Vec<Trailer>) -> (found: ExistingChangeId)
    ensures
        classify_spec(trailers_view(trailers@), found),
{
    let key = String::from_str("Change-Id");
    let ghost pairs = trailers_view(trailers@);
    let mut first: Option<usize> = None;
    let mut i: usize = 0;
    while i < trailers.len()
        invariant
            i <= trailers.len(),
            pairs == trailers_view(trailers@),
            key@ == change_id_key(),
            change_id_values(pairs.take(i as int)).len() <= 1,
            first is None <==> change_id_values(pairs.take(i as int)).len() == 0,
            first matches Some(k) ==> k < i && change_id_values(pairs.take(i as int))[0]
                == pairs[k as int].1,
        decreases trailers.len() - i,
    {
        proof {
            lemma_change_id_values_step(pairs, i as int);
        }
        if trailers[i].key == key {
            if first.is_some() {
                proof {
                    lemma_take_more_values(pairs, i as int + 1);
                }
                return ExistingChangeId::Multiple;
            }
            first = Some(i);
        }
        i += 1;
    }
    assert(pairs.take(i as int) =~= pairs);
    match first {
        None => ExistingChangeId::Absent,
        Some(k) => {
            let value = trailers[k].value.clone();
            let well_formed = is_well_formed_change_id(value.as_str());
            ExistingChangeId::Single { value, well_formed }
        },
    }
}

/// A prefix of a trailer list never holds more tracking identifiers than the
/// whole list.
proof fn lemma_take_more_values(trailers: Seq<(Seq<char>, Seq<char>)>, i: int)
    requires
        0 <= i <= trailers.len(),
    ensures
        change_id_values(trailers.take(i)).len() <= change_id_values(trailers).len(),
    decreases trailers.len() - i,
{
    if i == trailers.len() {
        assert(trailers.take(i) =~= trailers);
    } else {
        lemma_change_id_values_step(trailers, i);
        lemma_take_more_values(trailers, i + 1);
    }
}

} // verus!
