//! Typed reading of a request's parameters.
use vstd::prelude::*;
use crate::error::{Error, Result};
use crate::ids::{Uuid, uuid_parse_of};
use crate::message::pairs_view;
use crate::text::{parse_u64, parse_u64_spec};

verus! {

/// The parameters of a request, as (key, value) pairs in the order given.
pub struct Params {
    pub pairs: Vec<(String, String)>,
}

/// The value of the first pair whose key is `key`.
pub open spec fn lookup(pairs: Seq<(Seq<char>, Seq<char>)>, key: Seq<char>) -> Option<Seq<char>>
    decreases pairs.len(),
{
    if pairs.len() == 0 {
        None
    } else if pairs[0].0 == key {
        Some(pairs[0].1)
    } else {
        lookup(pairs.drop_first(), key)
    }
}

proof fn lemma_lookup_skip(pairs: Seq<(Seq<char>, Seq<char>)>, key: Seq<char>, i: int)
    requires
        0 <= i <= pairs.len(),
        forall|j: int| 0 <= j < i ==> (#[trigger] pairs[j]).0 != key,
    ensures
        lookup(pairs, key) == lookup(pairs.skip(i), key),
    decreases i,
{
    if i > 0 {
        assert(pairs[0].0 != key);
        let rest = pairs.drop_first();
        assert forall|j: int| 0 <= j < i - 1 implies (#[trigger] rest[j]).0 != key by {
            assert(rest[j] == pairs[j + 1]);
        }
        lemma_lookup_skip(rest, key, i - 1);
        assert(rest.skip(i - 1) =~= pairs.skip(i));
    } else {
        assert(pairs.skip(0) =~= pairs);
    }
}

impl Params {
    pub open spec fn view_pairs(&self) -> Seq<(Seq<char>, Seq<char>)> {
        pairs_view(self.pairs@)
    }

    /// The value given for `key`, if any.
    pub open spec fn get_spec(&self, key: Seq<char>) -> Option<Seq<char>> {
        lookup(self.view_pairs(), key)
    }

    pub fn new(pairs: Vec<(String, String)>) -> (r: Params)
        ensures
            r.pairs@ == pairs@,
    {
        Params { pairs }
    }

    /// The value of the first pair with key `key`.
    pub fn get(&self, key: &str) -> (r: Option<String>)
        ensures
            match r {
                Some(v) => self.get_spec(key@) == Some(v@),
                None => self.get_spec(key@) is None,
            },
    {
        let k = String::from_str(key);
        let ghost pv = self.view_pairs();
        let mut i: usize = 0;
        while i < self.pairs.len()
            invariant
                i <= self.pairs@.len(),
                k@ == key@,
                pv == self.view_pairs(),
                forall|j: int| 0 <= j < i ==> (#[trigger] pv[j]).0 != key@,
            decreases self.pairs.len() - i,
        {
            assert(pv[i as int] == (self.pairs@[i as int].0@, self.pairs@[i as int].1@));
            if self.pairs[i].0 == k {
                proof {
                    lemma_lookup_skip(pv, key@, i as int);
                    assert(pv.skip(i as int)[0] == pv[i as int]);
                }
                return Some(self.pairs[i].1.clone());
            }
            i = i + 1;
        }
        proof {
            lemma_lookup_skip(pv, key@, i as int);
        }
        None
    }
}

/// A type that a parameter's text can be read as.
pub trait ParamValue: Sized {
    /// Whether the text reads as a value of the type.
    spec fn parses(s: Seq<char>) -> bool;

    /// Whether the text reads as `v`.
    spec fn parses_as(s: Seq<char>, v: Self) -> bool;

    /// The type's name in error messages.
    spec fn type_label_spec() -> Seq<char>;

    fn parse_param(s: &str) -> (r: Option<Self>)
        ensures
            r is Some <==> Self::parses(s@),
            r matches Some(v) ==> Self::parses_as(s@, v),
    ;

    fn type_label() -> (r: String)
        ensures
            r@ == Self::type_label_spec(),
    ;
}

impl ParamValue for String {
    open spec fn parses(s: Seq<char>) -> bool {
        true
    }

    open spec fn parses_as(s: Seq<char>, v: String) -> bool {
        v@ == s
    }

    open spec fn type_label_spec() -> Seq<char> {
        "String"@
    }

    fn parse_param(s: &str) -> (r: Option<String>) {
        Some(String::from_str(s))
    }

    fn type_label() -> (r: String) {
        String::from_str("String")
    }
}

impl ParamValue for u64 {
    open spec fn parses(s: Seq<char>) -> bool {
        parse_u64_spec(s) is Some
    }

    open spec fn parses_as(s: Seq<char>, v: u64) -> bool {
        parse_u64_spec(s) == Some(v)
    }

    open spec fn type_label_spec() -> Seq<char> {
        "u64"@
    }

    fn parse_param(s: &str) -> (r: Option<u64>) {
        parse_u64(s)
    }

    fn type_label() -> (r: String) {
        String::from_str("u64")
    }
}

impl ParamValue for Uuid {
    open spec fn parses(s: Seq<char>) -> bool {
        uuid_parse_of(s) is Some
    }

    open spec fn parses_as(s: Seq<char>, v: Uuid) -> bool {
        uuid_parse_of(s) == Some(v.value)
    }

    open spec fn type_label_spec() -> Seq<char> {
        "Uuid"@
    }

    fn parse_param(s: &str) -> (r: Option<Uuid>) {
        match Uuid::parse(s) {
            Ok(v) => Some(v),
            Err(_) => None,
        }
    }

    fn type_label() -> (r: String) {
        String::from_str("Uuid")
    }
}

impl ParamValue for bool {
    open spec fn parses(s: Seq<char>) -> bool {
        s == "true"@ || s == "false"@
    }

    open spec fn parses_as(s: Seq<char>, v: bool) -> bool {
        v == (s == "true"@)
    }

    open spec fn type_label_spec() -> Seq<char> {
        "bool"@
    }

    fn parse_param(s: &str) -> (r: Option<bool>) {
        let t = String::from_str(s);
        if t == String::from_str("true") {
            Some(true)
        } else if t == String::from_str("false") {
            Some(false)
        } else {
            None
        }
    }

    fn type_label() -> (r: String) {
        String::from_str("bool")
    }
}

/// The error for a value given for `key` that does not read as a `T`.
pub open spec fn is_invalid_error<T: ParamValue>(e: Error, key: Seq<char>, got: Seq<char>) -> bool {
    e matches Error::ParamInvalid { got: g, field: f, expect: x } && g@ == got && f@ == key
        && x@ == T::type_label_spec()
}

/// Whether parameter `key` is given and reads as a `T`.
pub open spec fn readable<T: ParamValue>(params: &Params, key: Seq<char>) -> bool {
    params.get_spec(key) matches Some(v) && T::parses(v)
}

/// `v` is what parameter `key` reads as.
pub open spec fn reads_as<T: ParamValue>(params: &Params, key: Seq<char>, v: T) -> bool {
    params.get_spec(key) matches Some(t) && T::parses_as(t, v)
}

/// `e` is the error for parameter `key` when it does not read as a `T`:
/// missing, or given as a text that is no `T`.
pub open spec fn param_error<T: ParamValue>(params: &Params, key: Seq<char>, e: Error) -> bool {
    match params.get_spec(key) {
        None => is_missing_error(e, key),
        Some(v) => is_invalid_error::<T>(e, key, v),
    }
}

/// Whether optional parameter `key` reads as a `T` or is missing.
pub open spec fn optional_readable<T: ParamValue>(params: &Params, key: Seq<char>) -> bool {
    params.get_spec(key) matches Some(v) ==> T::parses(v)
}

/// `o` is what optional parameter `key` reads as.
pub open spec fn optional_reads_as<T: ParamValue>(params: &Params, key: Seq<char>, o: Option<T>) -> bool {
    match params.get_spec(key) {
        None => o is None,
        Some(t) => o matches Some(v) && T::parses_as(t, v),
    }
}

/// The error for a parameter that is not given.
pub open spec fn is_missing_error(e: Error, key: Seq<char>) -> bool {
    e matches Error::NoParam(k) && k@ == key
}

fn invalid<T: ParamValue>(key: &str, got: &str) -> (e: Error)
    ensures
        is_invalid_error::<T>(e, key@, got@),
{
    Error::ParamInvalid {
        got: String::from_str(got),
        field: String::from_str(key),
        expect: T::type_label(),
    }
}

/// Reads parameter `key` as a `T`: an error when it is missing or does not
/// read as a `T`.
pub fn get_param<T: ParamValue>(params: &Params, key: &str) -> (r: Result<T>)
    ensures
        match params.get_spec(key@) {
            None => r is Err && is_missing_error(r->Err_0, key@),
            Some(v) => if T::parses(v) {
                r matches Ok(x) && T::parses_as(v, x)
            } else {
                r is Err && is_invalid_error::<T>(r->Err_0, key@, v)
            },
        },
{
    match params.get(key) {
        Some(v) => match T::parse_param(v.as_str()) {
            Some(x) => Ok(x),
            None => Err(invalid::<T>(key, v.as_str())),
        },
        None => Err(Error::NoParam(String::from_str(key))),
    }
}

/// Reads parameter `key` as a `T` if it is given: a missing parameter is
/// `None`, one that does not read as a `T` is an error.
pub fn get_param_option<T: ParamValue>(params: &Params, key: &str) -> (r: Result<Option<T>>)
    ensures
        match params.get_spec(key@) {
            None => r matches Ok(None),
            Some(v) => if T::parses(v) {
                r matches Ok(Some(x)) && T::parses_as(v, x)
            } else {
                r is Err && is_invalid_error::<T>(r->Err_0, key@, v)
            },
        },
{
    match get_param::<T>(params, key) {
        Ok(v) => Ok(Some(v)),
        Err(Error::NoParam(_)) => Ok(None),
        Err(e) => Err(e),
    }
}

/// What a flag's text gives: `default` when missing, the literal `true` or
/// `false`, nothing for any other text.
pub open spec fn flag_spec(v: Option<Seq<char>>, default: bool) -> Option<bool> {
    match v {
        None => Some(default),
        Some(t) => if t == "true"@ {
            Some(true)
        } else if t == "false"@ {
            Some(false)
        } else {
            None
        },
    }
}

/// Reads flag `key`: `true` or `false` when given as that literal, `false`
/// when missing, an error for any other text.
pub fn get_param_bool(params: &Params, key: &str) -> (r: Result<bool>)
    ensures
        match flag_spec(params.get_spec(key@), false) {
            Some(b) => r == Ok::<bool, Error>(b),
            None => r is Err && is_invalid_error::<bool>(r->Err_0, key@, params.get_spec(key@)->Some_0),
        },
{
    match get_param_option::<bool>(params, key) {
        Ok(Some(b)) => Ok(b),
        Ok(None) => Ok(false),
        Err(e) => Err(e),
    }
}

} // verus!
