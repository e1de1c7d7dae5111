//! Loading of the two configuration documents: the hyperparameter document
//! (an object with the four integer size fields) and the weight document (an
//! object mapping tensor names to flat numeric arrays). The documents are
//! parsed by `serde_json` and the numbers by `rustc_apfloat` behind trusted
//! wrappers whose results are named, so that each loader's contract says
//! exactly on which documents it succeeds and what it returns; every
//! validation rule — field present, integer, positive — is verified code.
use vstd::prelude::*;

verus! {

use core::str::FromStr;

use crate::policy::Hyperparameters;
use crate::store::{PolicyError, entries_view, names_distinct};

/// Carrier for `rustc_apfloat`'s decimal parse errors.
#[verifier::external_type_specification]
#[verifier::external_body]
pub struct ExParseError(rustc_apfloat::ParseError);

/// The hyperparameter document's parse: when the document is a JSON object
/// whose values are all numbers, the (name, decimal text) pairs sorted by
/// name, each number rendered back as text; `None` on any other document.
pub uninterp spec fn number_object_of(s: Seq<char>) -> Option<Seq<(Seq<char>, Seq<char>)>>;

/// The weight document's parse: when the document is a JSON object whose
/// values are all arrays of numbers, the (name, decimal texts) pairs sorted
/// by name; `None` on any other document.
pub uninterp spec fn number_array_object_of(s: Seq<char>) -> Option<
    Seq<(Seq<char>, Seq<Seq<char>>)>,
>;

/// The unsigned integer the text denotes under `u64::from_str`: `None` in
/// particular for a negative, fractional, exponent-notated or out-of-range
/// number rendering.
pub uninterp spec fn u64_of(s: Seq<char>) -> Option<u64>;

/// The IEEE 754 binary32 bit pattern that the decimal text denotes, when it
/// parses; `None` when it does not.
pub uninterp spec fn decimal_of(s: Seq<char>) -> Option<u32>;

/// Name/text pairs as plain values.
pub open spec fn text_pairs_view(v: Seq<(String, String)>) -> Seq<(Seq<char>, Seq<char>)> {
    v.map_values(|p: (String, String)| (p.0@, p.1@))
}

/// Name/texts pairs as plain values.
pub open spec fn text_array_pairs_view(v: Seq<(String, Vec<String>)>) -> Seq<
    (Seq<char>, Seq<Seq<char>>),
> {
    v.map_values(|p: (String, Vec<String>)| (p.0@, p.1@.map_values(|t: String| t@)))
}

/// Relies on `serde_json::from_str` at `BTreeMap<String, serde_json::Number>`
/// and on `serde_json`'s `Display` for `Number`: parses an object of named
/// numbers, failing on any other document, and hands each number back as its
/// decimal text, pairs sorted by name.
#[verifier::external_body]
fn parse_number_object(s: &str) -> (r: Option<Vec<(String, String)>>)
    ensures
        match r {
            Some(v) => number_object_of(s@) == Some(text_pairs_view(v@)),
            None => number_object_of(s@) is None,
        },
{
    match serde_json::from_str::<std::collections::BTreeMap<String, serde_json::Number>>(s) {
        Ok(m) => Some(m.into_iter().map(|(k, n)| (k, n.to_string())).collect()),
        Err(_) => None,
    }
}

/// Relies on `serde_json::from_str` at
/// `BTreeMap<String, Vec<serde_json::Number>>` and on `serde_json`'s
/// `Display` for `Number`: parses an object of named numeric arrays, failing
/// on any other document, each number handed back as its decimal text, pairs
/// sorted by name — so no name repeats.
#[verifier::external_body]
fn parse_number_array_object(s: &str) -> (r: Option<Vec<(String, Vec<String>)>>)
    ensures
        match r {
            Some(v) => number_array_object_of(s@) == Some(text_array_pairs_view(v@)) && (forall|
                i: int,
                j: int,
            |
                0 <= i < j < v@.len() ==> (#[trigger] v@[i].0@) != (#[trigger] v@[j].0@)),
            None => number_array_object_of(s@) is None,
        },
{
    match serde_json::from_str::<std::collections::BTreeMap<String, Vec<serde_json::Number>>>(s) {
        Ok(m) => Some(
            m.into_iter().map(|(k, a)| (k, a.iter().map(|n| n.to_string()).collect())).collect(),
        ),
        Err(_) => None,
    }
}

/// Relies on `u64::from_str` (`str::parse`): the unsigned integer a plain
/// digit string denotes, `None` for any other text, a pure function of the
/// text.
#[verifier::external_body]
fn text_u64(s: &str) -> (r: Option<u64>)
    ensures
        r == u64_of(s@),
{
    s.parse::<u64>().ok()
}

/// Relies on `rustc_apfloat::ieee::Single::from_str` (round to nearest, ties
/// to even): the decimal text rounded to the nearest IEEE 754 binary32
/// value, a pure function of the text.
#[verifier::external_body]
fn decimal_bits(s: &str) -> (r: Result<u32, rustc_apfloat::ParseError>)
    ensures
        match r {
            Ok(b) => decimal_of(s@) == Some(b),
            Err(_) => decimal_of(s@) is None,
        },
{
    let parsed = rustc_apfloat::ieee::Single::from_str(s)?;
    Ok(rustc_apfloat::Float::to_bits(parsed) as u32)
}

/// The first text stored under `name`, or `None` when no field matches.
pub open spec fn find_text(
    entries: Seq<(Seq<char>, Seq<char>)>,
    name: Seq<char>,
) -> Option<Seq<char>>
    decreases entries.len(),
{
    if entries.len() == 0 {
        None
    } else if entries[0].0 == name {
        Some(entries[0].1)
    } else {
        find_text(entries.drop_first(), name)
    }
}

/// The size the named field denotes: it must be present, a plain unsigned
/// integer, positive, and fit a machine word.
pub open spec fn spec_hyper_size(
    entries: Seq<(Seq<char>, Seq<char>)>,
    name: Seq<char>,
) -> Option<u64> {
    match find_text(entries, name) {
        None => None,
        Some(t) => match u64_of(t) {
            None => None,
            Some(v) => if 1 <= v && v <= usize::MAX as u64 {
                Some(v)
            } else {
                None
            },
        },
    }
}

/// The hyperparameters a parsed field list denotes, when all four sizes are
/// present, integral, positive and representable.
pub open spec fn spec_hyper_from_fields(entries: Seq<(Seq<char>, Seq<char>)>) -> Option<
    Hyperparameters,
> {
    let vks = spec_hyper_size(entries, "vertex_key_size"@);
    let vvs = spec_hyper_size(entries, "vertex_value_size"@);
    let mks = spec_hyper_size(entries, "muscle_key_size"@);
    let nh = spec_hyper_size(entries, "num_heads"@);
    if vks is Some && vvs is Some && mks is Some && nh is Some {
        Some(
            Hyperparameters {
                vertex_key_size: vks.unwrap() as usize,
                vertex_value_size: vvs.unwrap() as usize,
                muscle_key_size: mks.unwrap() as usize,
                num_heads: nh.unwrap() as usize,
            },
        )
    } else {
        None
    }
}

/// The hyperparameters a document denotes: the document must parse as an
/// object of numbers and all four size fields must be valid.
pub open spec fn spec_hyperparameters(doc: Seq<char>) -> Option<Hyperparameters> {
    match number_object_of(doc) {
        None => None,
        Some(entries) => spec_hyper_from_fields(entries),
    }
}

/// The tensor a list of number texts denotes: each text's binary32 bit
/// pattern in order, when every text parses.
pub open spec fn spec_tensor_of(texts: Seq<Seq<char>>) -> Option<Seq<u32>>
    decreases texts.len(),
{
    if texts.len() == 0 {
        Some(Seq::empty())
    } else {
        match (spec_tensor_of(texts.drop_last()), decimal_of(texts.last())) {
            (Some(p), Some(b)) => Some(p.push(b)),
            _ => None,
        }
    }
}

/// The store entries a parsed pair list denotes, when every number parses.
pub open spec fn spec_entries_from(pairs: Seq<(Seq<char>, Seq<Seq<char>>)>) -> Option<
    Seq<(Seq<char>, Seq<u32>)>,
>
    decreases pairs.len(),
{
    if pairs.len() == 0 {
        Some(Seq::empty())
    } else {
        match (spec_entries_from(pairs.drop_last()), spec_tensor_of(pairs.last().1)) {
            (Some(p), Some(t)) => Some(p.push((pairs.last().0, t))),
            _ => None,
        }
    }
}

/// The store entries a weight document denotes: the document must parse as
/// an object of numeric arrays whose every number's text parses.
pub open spec fn spec_weight_entries(doc: Seq<char>) -> Option<Seq<(Seq<char>, Seq<u32>)>> {
    match number_array_object_of(doc) {
        None => None,
        Some(pairs) => spec_entries_from(pairs),
    }
}

/// One unparsable text poisons the whole tensor.
proof fn lemma_tensor_none(texts: Seq<Seq<char>>, j: int)
    requires
        0 <= j < texts.len(),
        decimal_of(texts[j]) is None,
    ensures
        spec_tensor_of(texts) is None,
    decreases texts.len(),
{
    if j < texts.len() - 1 {
        assert(texts.drop_last()[j] == texts[j]);
        lemma_tensor_none(texts.drop_last(), j);
    }
}

/// One unparsable tensor poisons the whole entry list.
proof fn lemma_entries_none(pairs: Seq<(Seq<char>, Seq<Seq<char>>)>, i: int)
    requires
        0 <= i < pairs.len(),
        spec_tensor_of(pairs[i].1) is None,
    ensures
        spec_entries_from(pairs) is None,
    decreases pairs.len(),
{
    if i < pairs.len() - 1 {
        assert(pairs.drop_last()[i] == pairs[i]);
        lemma_entries_none(pairs.drop_last(), i);
    }
}

/// Looks up one hyperparameter field by name.
fn hyper_field<'a>(entries: &'a Vec<(String, String)>, name: &str) -> (r: Option<&'a String>)
    ensures
        match r {
            Some(t) => find_text(text_pairs_view(entries@), name@) == Some(t@),
            None => find_text(text_pairs_view(entries@), name@) is None,
        },
{
    let key = <String as vstd::string::StringExecFns>::from_str(name);
    let ghost ev = text_pairs_view(entries@);
    proof {
        assert(ev.skip(0) =~= ev);
    }
    let mut i: usize = 0;
    while i < entries.len()
        invariant
            i <= ev.len(),
            ev == text_pairs_view(entries@),
            ev.len() == entries@.len(),
            key@ == name@,
            find_text(ev, name@) == find_text(ev.skip(i as int), name@),
        decreases ev.len() - i,
    {
        proof {
            assert(ev[i as int] == (entries@[i as int].0@, entries@[i as int].1@));
            assert(ev.skip(i as int)[0] == ev[i as int]);
        }
        if entries[i].0 == key {
            return Some(&entries[i].1);
        }
        proof {
            assert(ev.skip(i as int).drop_first() =~= ev.skip(i as int + 1));
        }
        i += 1;
    }
    proof {
        assert(ev.skip(i as int) =~= Seq::empty());
    }
    None
}

/// One hyperparameter: the named field must be present, a plain unsigned
/// integer, positive, and representable in a machine word; anything else is
/// a `ConfigError`.
fn hyper_size(entries: &Vec<(String, String)>, name: &str) -> (r: Result<usize, PolicyError>)
    ensures
        match r {
            Ok(v) => spec_hyper_size(text_pairs_view(entries@), name@) == Some(v as u64) && v > 0,
            Err(e) => e == PolicyError::ConfigError && spec_hyper_size(
                text_pairs_view(entries@),
                name@,
            ) is None,
        },
{
    let t = match hyper_field(entries, name) {
        Some(t) => t,
        None => {
            return Err(PolicyError::ConfigError);
        },
    };
    let v = match text_u64(t.as_str()) {
        Some(v) => v,
        None => {
            return Err(PolicyError::ConfigError);
        },
    };
    if v == 0 || v > (usize::MAX as u64) {
        return Err(PolicyError::ConfigError);
    }
    Ok(v as usize)
}

/// Parses the hyperparameter document: an object with the integer fields
/// `vertex_key_size`, `vertex_value_size`, `muscle_key_size` and
/// `num_heads`. It succeeds exactly when the document denotes
/// hyperparameters — each field present, integral, positive and
/// representable — and then returns exactly those four sizes; any other
/// document is a `ConfigError`.
pub fn load_hyperparameters(args_json: &str) -> (r: Result<Hyperparameters, PolicyError>)
    ensures
        match r {
            Ok(h) => spec_hyperparameters(args_json@) == Some(h) && h.positive(),
            Err(e) => e == PolicyError::ConfigError && spec_hyperparameters(args_json@) is None,
        },
{
    let entries = match parse_number_object(args_json) {
        Some(e) => e,
        None => {
            return Err(PolicyError::ConfigError);
        },
    };
    let vertex_key_size = hyper_size(&entries, "vertex_key_size")?;
    let vertex_value_size = hyper_size(&entries, "vertex_value_size")?;
    let muscle_key_size = hyper_size(&entries, "muscle_key_size")?;
    let num_heads = hyper_size(&entries, "num_heads")?;
    Ok(Hyperparameters { vertex_key_size, vertex_value_size, muscle_key_size, num_heads })
}

/// Parses the weight document: an object mapping each tensor name to a flat
/// array of numbers. It succeeds exactly when the document parses and every
/// number's decimal text denotes a binary32 bit pattern, and then returns
/// exactly the denoted tensors under their names (sorted by name, pairwise
/// distinct); any other document is a `WeightLoadError`.
pub fn load_weight_entries(weights_json: &str) -> (r: Result<
    Vec<(String, Vec<u32>)>,
    PolicyError,
>)
    ensures
        match r {
            Ok(v) => spec_weight_entries(weights_json@) == Some(entries_view(v@)) && names_distinct(
                v@,
            ),
            Err(e) => e == PolicyError::WeightLoadError && spec_weight_entries(
                weights_json@,
            ) is None,
        },
{
    let raw = match parse_number_array_object(weights_json) {
        Some(e) => e,
        None => {
            return Err(PolicyError::WeightLoadError);
        },
    };
    let ghost rawv = text_array_pairs_view(raw@);
    let mut out: Vec<(String, Vec<u32>)> = Vec::new();
    let mut i: usize = 0;
    proof {
        assert(rawv.take(0) =~= Seq::empty());
    }
    while i < raw.len()
        invariant
            i <= raw@.len(),
            rawv == text_array_pairs_view(raw@),
            rawv.len() == raw@.len(),
            number_array_object_of(weights_json@) == Some(rawv),
            forall|a: int, b: int|
                0 <= a < b < raw@.len() ==> (#[trigger] raw@[a].0@) != (#[trigger] raw@[b].0@),
            out@.len() == i,
            forall|t: int| 0 <= t < i ==> (#[trigger] out@[t].0@) == raw@[t].0@,
            spec_entries_from(rawv.take(i as int)) == Some(entries_view(out@)),
        decreases raw@.len() - i,
    {
        proof {
            assert(rawv[i as int] == (
                raw@[i as int].0@,
                raw@[i as int].1@.map_values(|t: String| t@),
            ));
        }
        let (name, texts) = &raw[i];
        let ghost gtexts = rawv[i as int].1;
        let mut tensor: Vec<u32> = Vec::new();
        let mut j: usize = 0;
        proof {
            assert(gtexts.take(0) =~= Seq::empty());
            assert(spec_tensor_of(gtexts.take(0)) == Some(tensor@));
        }
        while j < texts.len()
            invariant
                j <= texts@.len(),
                gtexts == rawv[i as int].1,
                i < rawv.len(),
                rawv == text_array_pairs_view(raw@),
                rawv.len() == raw@.len(),
                number_array_object_of(weights_json@) == Some(rawv),
                gtexts == texts@.map_values(|t: String| t@),
                gtexts.len() == texts@.len(),
                tensor@.len() == j,
                spec_tensor_of(gtexts.take(j as int)) == Some(tensor@),
            decreases texts@.len() - j,
        {
            proof {
                assert(gtexts[j as int] == texts@[j as int]@);
            }
            let bits = match decimal_bits(texts[j].as_str()) {
                Ok(b) => b,
                Err(_) => {
                    proof {
                        lemma_tensor_none(gtexts, j as int);
                        lemma_entries_none(rawv, i as int);
                    }
                    return Err(PolicyError::WeightLoadError);
                },
            };
            tensor.push(bits);
            j += 1;
            proof {
                assert(gtexts.take(j as int).drop_last() =~= gtexts.take(j as int - 1));
                assert(gtexts.take(j as int).last() == gtexts[j as int - 1]);
            }
        }
        proof {
            assert(gtexts.take(texts@.len() as int) =~= gtexts);
            assert(spec_tensor_of(rawv[i as int].1) == Some(tensor@));
        }
        out.push((name.clone(), tensor));
        i += 1;
        proof {
            assert(rawv.take(i as int).drop_last() =~= rawv.take(i as int - 1));
            assert(rawv.take(i as int).last() == rawv[i as int - 1]);
            assert(entries_view(out@).last() == (out@.last().0@, out@.last().1@));
            assert(entries_view(out@).drop_last() =~= entries_view(out@.drop_last()));
        }
    }
    proof {
        assert(rawv.take(raw@.len() as int) =~= rawv);
    }
    Ok(out)
}

} // verus!
