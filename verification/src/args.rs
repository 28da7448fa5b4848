//! Argument marshalling: the record a host passes to a provider by value,
//! and its conversion into exactly one typed variant.
//!
//! The record carries its dynamic-length parts as owned values, so the
//! transfer of ownership that the boundary demands is the move of the record
//! itself: after a call consumes it, the caller holds nothing to free or to
//! reuse. An absent field is `None`, never a dangling or ambiguous pointer.

use vstd::prelude::*;
use vstd::string::StringExecFns;

verus! {

/// A caller-built argument record, passed to a provider by value.
///
/// At most one of `key` and `key_array` should be present, and the two
/// length fields should match the lengths of the collections they describe;
/// `wf` states both. Marshalling is total over all records regardless, and
/// a zero `key_len` forces the no-argument reading whatever else is set.
pub struct RawMethodArguments {
    /// The single key, when the record carries a lone keyed argument list.
    pub key: Option<String>,
    /// The key array, when the record carries several keys.
    pub key_array: Option<Vec<String>>,
    /// The argument list, always owned by the record.
    pub args: Vec<String>,
    /// The declared number of keys; zero means "no arguments at all".
    pub key_len: usize,
    /// The declared length of `args`.
    pub args_len: usize,
}

impl RawMethodArguments {
    /// The caller's side of the marshalling contract: declared lengths match
    /// the collections, and at most one of the two key fields is set.
    pub open spec fn wf(self) -> bool {
        &&& self.args_len == self.args@.len()
        &&& self.key_array is Some ==> self.key_len == self.key_array.unwrap()@.len()
        &&& !(self.key is Some && self.key_array is Some)
    }
}

/// The typed form of a provider's arguments, with exactly one active variant.
#[derive(PartialEq, Eq, Debug)]
pub enum MethodArguments {
    /// One key with its ordered argument list.
    StringArg(String, Vec<String>),
    /// Several keys with one ordered argument list.
    Array(Vec<String>, Vec<String>),
    /// No arguments were supplied.
    NoArgs,
}

/// What marshalling yields for a given record, in the order the boundary
/// fixes: a zero key length means no arguments whatever the other fields
/// hold; otherwise a present single key wins over a present key array; a
/// record with neither key field set falls back to no arguments.
pub open spec fn marshal_spec(input: RawMethodArguments) -> MethodArguments {
    if input.key_len == 0 {
        MethodArguments::NoArgs
    } else if input.key is Some {
        MethodArguments::StringArg(input.key.unwrap(), input.args)
    } else if input.key_array is Some {
        MethodArguments::Array(input.key_array.unwrap(), input.args)
    } else {
        MethodArguments::NoArgs
    }
}

impl MethodArguments {
    /// Consumes a raw record and produces its typed form. The record is
    /// moved in whole; every owned part either moves into the result or is
    /// dropped here, so the caller never frees or reuses any of it.
    pub fn from(input: RawMethodArguments) -> (r: MethodArguments)
        ensures
            r == marshal_spec(input),
    {
        let RawMethodArguments { key, key_array, args, key_len, args_len: _ } = input;
        if key_len == 0 {
            return MethodArguments::NoArgs;
        }
        match key {
            Some(k) => MethodArguments::StringArg(k, args),
            None => match key_array {
                Some(keys) => MethodArguments::Array(keys, args),
                None => MethodArguments::NoArgs,
            },
        }
    }
}

/// The record that encodes a single key `key` with argument list `args`.
pub open spec fn string_arg_record(key: String, args: Vec<String>) -> RawMethodArguments {
    RawMethodArguments {
        key: Some(key),
        key_array: None,
        args,
        key_len: 1,
        args_len: args@.len() as usize,
    }
}

/// Builds the well-formed record for a single key and its argument list,
/// the encoding a host performs before calling a provider that takes one
/// keyed argument list.
pub fn encode_string_arg(key: String, args: Vec<String>) -> (r: RawMethodArguments)
    ensures
        r == string_arg_record(key, args),
        r.wf(),
{
    let args_len = args.len();
    RawMethodArguments { key: Some(key), key_array: None, args, key_len: 1, args_len }
}

/// A zero key length always marshals to `NoArgs`, whatever the pointer-like
/// fields hold.
pub proof fn lemma_zero_key_len_yields_no_args(input: RawMethodArguments)
    requires
        input.key_len == 0,
    ensures
        marshal_spec(input) == MethodArguments::NoArgs,
{
}

/// A well-formed single-key record (single key set, key array absent, one
/// declared key) marshals to `StringArg` carrying that key and the argument
/// list unchanged, so the list's length equals the declared argument length
/// and its order is preserved.
pub proof fn lemma_single_key_marshal(input: RawMethodArguments)
    requires
        input.wf(),
        input.key is Some,
        input.key_array is None,
        input.key_len == 1,
    ensures
        marshal_spec(input) == MethodArguments::StringArg(input.key.unwrap(), input.args),
        marshal_spec(input)->StringArg_1@.len() == input.args_len,
        marshal_spec(input)->StringArg_1@ == input.args@,
{
}

/// A well-formed multi-key record (key array set, single key absent, a
/// positive declared key count) marshals to `Array` carrying the key array
/// and the argument list unchanged, so the key count equals the declared
/// key length.
pub proof fn lemma_multi_key_marshal(input: RawMethodArguments)
    requires
        input.wf(),
        input.key is None,
        input.key_array is Some,
        input.key_len > 0,
    ensures
        marshal_spec(input) == MethodArguments::Array(input.key_array.unwrap(), input.args),
        marshal_spec(input)->Array_0@.len() == input.key_len,
        marshal_spec(input)->Array_1@.len() == input.args_len,
{
}

/// The texts of a sequence of strings, each as its character sequence.
pub open spec fn texts_view(v: Seq<String>) -> Seq<Seq<char>> {
    v.map_values(|s: String| s@)
}

/// A text wrapped in double quotes.
pub open spec fn quoted(s: Seq<char>) -> Seq<char> {
    seq!['"'] + s + seq!['"']
}

/// The items, each quoted, joined by a comma and a space.
pub open spec fn comma_separated(items: Seq<Seq<char>>) -> Seq<char>
    decreases items.len(),
{
    if items.len() == 0 {
        Seq::empty()
    } else if items.len() == 1 {
        quoted(items[0])
    } else {
        comma_separated(items.drop_last()) + seq![',', ' '] + quoted(items.last())
    }
}

/// The items, each quoted, comma-separated and bracketed.
pub open spec fn listed(items: Seq<Seq<char>>) -> Seq<char> {
    seq!['['] + comma_separated(items) + seq![']']
}

/// The description `test` reports for a typed argument value.
pub open spec fn describe_spec(m: MethodArguments) -> Seq<char> {
    match m {
        MethodArguments::StringArg(k, a) => "key: String("@ + k@ + "); args: "@ + listed(
            texts_view(a@),
        ),
        MethodArguments::Array(ks, a) => "key: Array("@ + listed(texts_view(ks@)) + "); args: "@
            + listed(texts_view(a@)),
        MethodArguments::NoArgs => "no arguments supplied"@,
    }
}

/// Renders the strings of `v` as a quoted, comma-separated, bracketed list.
fn list_texts(v: &Vec<String>) -> (r: String)
    ensures
        r@ == listed(texts_view(v@)),
{
    proof {
        reveal_strlit("[");
        reveal_strlit("]");
        reveal_strlit(", ");
        reveal_strlit("\"");
    }
    let mut r = String::from_str("[");
    let mut i: usize = 0;
    while i < v.len()
        invariant
            i <= v@.len(),
            r@ == seq!['['] + comma_separated(texts_view(v@).take(i as int)),
        decreases v@.len() - i,
    {
        proof {
            reveal_strlit(", ");
            reveal_strlit("\"");
        }
        if i > 0 {
            r.append(", ");
        }
        r.append("\"");
        r.append(v[i].as_str());
        r.append("\"");
        proof {
            let t = texts_view(v@);
            assert(t.take(i + 1).last() == v@[i as int]@);
            if i == 0 {
                assert(comma_separated(t.take(1)) == quoted(t[0]));
            } else {
                assert(t.take(i + 1).drop_last() =~= t.take(i as int));
            }
        }
        i = i + 1;
    }
    r.append("]");
    proof {
        assert(texts_view(v@).take(v@.len() as int) =~= texts_view(v@));
    }
    r
}

/// Renders a typed argument value as the one-line description the `test`
/// provider returns: the active variant's name with its key or keys, then
/// the argument list, lists quoted and bracketed.
pub fn describe_arguments(m: &MethodArguments) -> (r: String)
    ensures
        r@ == describe_spec(*m),
{
    match m {
        MethodArguments::StringArg(k, a) => {
            proof {
                reveal_strlit("key: String(");
                reveal_strlit("); args: ");
            }
            let mut r = String::from_str("key: String(");
            r.append(k.as_str());
            r.append("); args: ");
            let lst = list_texts(a);
            r.append(lst.as_str());
            r
        },
        MethodArguments::Array(ks, a) => {
            proof {
                reveal_strlit("key: Array(");
                reveal_strlit("); args: ");
            }
            let mut r = String::from_str("key: Array(");
            let keys = list_texts(ks);
            r.append(keys.as_str());
            r.append("); args: ");
            let lst = list_texts(a);
            r.append(lst.as_str());
            r
        },
        MethodArguments::NoArgs => String::from_str("no arguments supplied"),
    }
}

/// Round trip: encoding a key and argument list into a record and
/// marshalling the record back yields exactly that key and that list, text
/// and order preserved.
pub proof fn lemma_string_arg_round_trip(key: String, args: Vec<String>)
    ensures
        marshal_spec(string_arg_record(key, args)) == MethodArguments::StringArg(key, args),
{
}

} // verus!
