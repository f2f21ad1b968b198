//! The loosely-typed option boundary: an ordered list of key/value pairs as
//! a host boundary hands them over. Before dispatch, null-valued keys are
//! dropped and dotted keys are rewritten into the flat underscore key
//! space; after that, typed getters read single values, flags, lists
//! (scalars coerce to one-element lists), byte lists, and `name:value`
//! pair lists.

use vstd::prelude::*;
use vstd::string::*;

use crate::errors::Error;
use crate::text::{spec_find, spec_rewrite_dots, split_at_char, str_eq, rewrite_dots};

verus! {

/// A loosely-typed option value.
#[derive(Debug)]
pub enum OptVal {
    Text(String),
    Flag(bool),
    TextList(Vec<String>),
    Bytes(Vec<u8>),
    BytesList(Vec<Vec<u8>>),
    /// The host's null: the key counts as not given and is dropped before
    /// dispatch.
    Null,
}

pub ghost enum OptValView {
    Text(Seq<char>),
    Flag(bool),
    TextList(Seq<Seq<char>>),
    Bytes(Seq<u8>),
    BytesList(Seq<Seq<u8>>),
    Null,
}

impl View for OptVal {
    type V = OptValView;

    open spec fn view(&self) -> OptValView {
        match self {
            OptVal::Text(s) => OptValView::Text(s@),
            OptVal::Flag(b) => OptValView::Flag(*b),
            OptVal::TextList(l) => OptValView::TextList(l@.map_values(|s: String| s@)),
            OptVal::Bytes(b) => OptValView::Bytes(b@),
            OptVal::BytesList(l) => OptValView::BytesList(l@.map_values(|b: Vec<u8>| b@)),
            OptVal::Null => OptValView::Null,
        }
    }
}

/// One key/value pair of the option list.
#[derive(Debug)]
pub struct RawOpt {
    pub key: String,
    pub value: OptVal,
}

impl View for RawOpt {
    type V = (Seq<char>, OptValView);

    open spec fn view(&self) -> (Seq<char>, OptValView) {
        (self.key@, self.value@)
    }
}

/// The view of a whole option list.
pub open spec fn opts_view(opts: Seq<RawOpt>) -> Seq<(Seq<char>, OptValView)> {
    opts.map_values(|o: RawOpt| o@)
}

/// The cleaning pass: null-valued keys dropped, dotted keys rewritten.
pub open spec fn spec_clean(s: Seq<(Seq<char>, OptValView)>) -> Seq<(Seq<char>, OptValView)>
    decreases s.len(),
{
    if s.len() == 0 {
        Seq::empty()
    } else {
        spec_clean(s.drop_last()) + (if s.last().1 is Null {
            Seq::empty()
        } else {
            seq![(spec_rewrite_dots(s.last().0), s.last().1)]
        })
    }
}

/// A second value equal to the given one.
pub fn opt_dup(v: &OptVal) -> (r: OptVal)
    ensures
        r@ == v@,
{
    match v {
        OptVal::Text(s) => OptVal::Text(s.clone()),
        OptVal::Flag(b) => OptVal::Flag(*b),
        OptVal::TextList(l) => {
            let c = clone_texts(l);
            proof {
                assert(c@.map_values(|s: String| s@) =~= l@.map_values(|s: String| s@));
            }
            OptVal::TextList(c)
        },
        OptVal::Bytes(b) => {
            let mut c: Vec<u8> = Vec::new();
            let m = b.len();
            let mut k: usize = 0;
            while k < m
                invariant
                    m == b@.len(),
                    0 <= k <= m,
                    c@ =~= b@.subrange(0, k as int),
                decreases m - k,
            {
                c.push(b[k]);
                proof {
                    assert(c@ =~= b@.subrange(0, k + 1));
                }
                k += 1;
            }
            proof {
                assert(c@ =~= b@);
            }
            OptVal::Bytes(c)
        },
        OptVal::BytesList(l) => {
            let c = clone_bytes_list(l);
            proof {
                assert(c@.map_values(|b: Vec<u8>| b@) =~= l@.map_values(|b: Vec<u8>| b@));
            }
            OptVal::BytesList(c)
        },
        OptVal::Null => OptVal::Null,
    }
}

/// Drop null-valued keys and rewrite dotted keys, keeping order.
pub fn clean_options(opts: &Vec<RawOpt>) -> (r: Vec<RawOpt>)
    ensures
        opts_view(r@) =~= spec_clean(opts_view(opts@)),
{
    let n = opts.len();
    let mut r: Vec<RawOpt> = Vec::new();
    let mut i: usize = 0;
    while i < n
        invariant
            n == opts@.len(),
            0 <= i <= n,
            opts_view(r@) =~= spec_clean(opts_view(opts@).subrange(0, i as int)),
        decreases n - i,
    {
        let o = &opts[i];
        let keep = match &o.value {
            OptVal::Null => false,
            _ => true,
        };
        if keep {
            let key = rewrite_dots(o.key.as_str());
            r.push(RawOpt { key, value: opt_dup(&o.value) });
        }
        proof {
            assert(opts_view(opts@).subrange(0, i + 1).drop_last() =~= opts_view(
                opts@,
            ).subrange(0, i as int));
            assert(opts_view(opts@).subrange(0, i + 1).last() == opts_view(opts@)[i as int]);
            assert(opts_view(r@) =~= spec_clean(opts_view(opts@).subrange(0, i + 1)));
        }
        i += 1;
    }
    proof {
        assert(opts_view(opts@).subrange(0, n as int) =~= opts_view(opts@));
    }
    r
}

/// The first value given for `key`, if any.
pub open spec fn opt_lookup(s: Seq<(Seq<char>, OptValView)>, key: Seq<char>) -> Option<OptValView>
    decreases s.len(),
{
    if s.len() == 0 {
        None
    } else if s[0].0 == key {
        Some(s[0].1)
    } else {
        opt_lookup(s.drop_first(), key)
    }
}

proof fn lemma_opt_lookup_first(s: Seq<(Seq<char>, OptValView)>, key: Seq<char>, i: int)
    requires
        0 <= i < s.len(),
        s[i].0 == key,
        forall|j: int| 0 <= j < i ==> s[j].0 != key,
    ensures
        opt_lookup(s, key) == Some(s[i].1),
    decreases s.len(),
{
    if i == 0 {
    } else {
        assert(forall|j: int| 0 <= j < s.len() - 1 ==> s.drop_first()[j] == s[j + 1]);
        lemma_opt_lookup_first(s.drop_first(), key, i - 1);
    }
}

proof fn lemma_opt_lookup_absent(s: Seq<(Seq<char>, OptValView)>, key: Seq<char>)
    requires
        forall|j: int| 0 <= j < s.len() ==> s[j].0 != key,
    ensures
        opt_lookup(s, key) is None,
    decreases s.len(),
{
    if s.len() == 0 {
    } else {
        assert(forall|j: int| 0 <= j < s.len() - 1 ==> s.drop_first()[j] == s[j + 1]);
        lemma_opt_lookup_absent(s.drop_first(), key);
    }
}

/// The result of reading `key` as a single string: absent or null reads as
/// nothing, any other shape than text is a shape error.
pub open spec fn spec_get_text(s: Seq<(Seq<char>, OptValView)>, key: Seq<char>) -> Result<
    Option<Seq<char>>,
    (),
> {
    match opt_lookup(s, key) {
        None => Ok(None),
        Some(v) => match v {
            OptValView::Text(t) => Ok(Some(t)),
            OptValView::Null => Ok(None),
            _ => Err(()),
        },
    }
}

/// The result of reading `key` as a boolean flag.
pub open spec fn spec_get_flag(s: Seq<(Seq<char>, OptValView)>, key: Seq<char>) -> Result<
    Option<bool>,
    (),
> {
    match opt_lookup(s, key) {
        None => Ok(None),
        Some(v) => match v {
            OptValView::Flag(b) => Ok(Some(b)),
            OptValView::Null => Ok(None),
            _ => Err(()),
        },
    }
}

/// The result of reading `key` as a string list; a scalar string coerces
/// to a one-element list.
pub open spec fn spec_get_texts(s: Seq<(Seq<char>, OptValView)>, key: Seq<char>) -> Result<
    Option<Seq<Seq<char>>>,
    (),
> {
    match opt_lookup(s, key) {
        None => Ok(None),
        Some(v) => match v {
            OptValView::Text(t) => Ok(Some(seq![t])),
            OptValView::TextList(ts) => Ok(Some(ts)),
            OptValView::Null => Ok(None),
            _ => Err(()),
        },
    }
}

/// The result of reading `key` as a list of byte strings.
pub open spec fn spec_get_bytes(s: Seq<(Seq<char>, OptValView)>, key: Seq<char>) -> Result<
    Option<Seq<Seq<u8>>>,
    (),
> {
    match opt_lookup(s, key) {
        None => Ok(None),
        Some(v) => match v {
            OptValView::BytesList(bs) => Ok(Some(bs)),
            OptValView::Null => Ok(None),
            _ => Err(()),
        },
    }
}

/// The result of reading `key` as a single byte string.
pub open spec fn spec_get_blob(s: Seq<(Seq<char>, OptValView)>, key: Seq<char>) -> Result<
    Option<Seq<u8>>,
    (),
> {
    match opt_lookup(s, key) {
        None => Ok(None),
        Some(v) => match v {
            OptValView::Bytes(b) => Ok(Some(b)),
            OptValView::Null => Ok(None),
            _ => Err(()),
        },
    }
}

/// The result of reading `key` as a list of `name:value` pairs; an element
/// without the separator is a shape error.
pub open spec fn spec_get_pairs(s: Seq<(Seq<char>, OptValView)>, key: Seq<char>) -> Result<
    Option<Seq<(Seq<char>, Seq<char>)>>,
    (),
> {
    match spec_get_texts(s, key) {
        Err(()) => Err(()),
        Ok(None) => Ok(None),
        Ok(Some(l)) => match spec_split_all(l) {
            Some(ps) => Ok(Some(ps)),
            None => Err(()),
        },
    }
}

/// Look the raw value for `key` up, first occurrence winning.
fn lookup_raw<'a>(opts: &'a Vec<RawOpt>, key: &str) -> (r: Option<&'a OptVal>)
    ensures
        match opt_lookup(opts_view(opts@), key@) {
            Some(v) => r matches Some(x) && x@ == v,
            None => r is None,
        },
{
    let n = opts.len();
    let mut i: usize = 0;
    while i < n
        invariant
            n == opts@.len(),
            0 <= i <= n,
            forall|j: int| 0 <= j < i ==> opts_view(opts@)[j].0 != key@,
        decreases n - i,
    {
        if str_eq(opts[i].key.as_str(), key) {
            proof {
                lemma_opt_lookup_first(opts_view(opts@), key@, i as int);
            }
            return Some(&opts[i].value);
        }
        i += 1;
    }
    proof {
        lemma_opt_lookup_absent(opts_view(opts@), key@);
    }
    None
}

/// Whether `key` is given with a non-null value.
pub fn has_opt(opts: &Vec<RawOpt>, key: &str) -> (r: bool)
    ensures
        r == (match opt_lookup(opts_view(opts@), key@) {
            Some(v) => !(v is Null),
            None => false,
        }),
{
    match lookup_raw(opts, key) {
        Some(v) => match v {
            OptVal::Null => false,
            _ => true,
        },
        None => false,
    }
}

/// Read a single string value. A null or missing key reads as absent; any
/// other shape than text is rejected.
pub fn get_text(opts: &Vec<RawOpt>, key: &str) -> (r: Result<Option<String>, Error>)
    ensures
        match spec_get_text(opts_view(opts@), key@) {
            Ok(o) => r matches Ok(x) && (match o {
                Some(t) => x matches Some(s) && s@ == t,
                None => x is None,
            }),
            Err(()) => r matches Err(e) && (e matches Error::InvalidOptionValue { key: k } && k@
                == key@),
        },
{
    match lookup_raw(opts, key) {
        None => Ok(None),
        Some(v) => match v {
            OptVal::Text(t) => Ok(Some(t.clone())),
            OptVal::Null => Ok(None),
            _ => Err(Error::InvalidOptionValue { key: key.to_owned() }),
        },
    }
}

/// Read a boolean flag.
pub fn get_flag(opts: &Vec<RawOpt>, key: &str) -> (r: Result<Option<bool>, Error>)
    ensures
        match spec_get_flag(opts_view(opts@), key@) {
            Ok(o) => r == Ok::<Option<bool>, Error>(o),
            Err(()) => r matches Err(e) && (e matches Error::InvalidOptionValue { key: k } && k@
                == key@),
        },
{
    match lookup_raw(opts, key) {
        None => Ok(None),
        Some(v) => match v {
            OptVal::Flag(b) => Ok(Some(*b)),
            OptVal::Null => Ok(None),
            _ => Err(Error::InvalidOptionValue { key: key.to_owned() }),
        },
    }
}

/// Duplicate a vector of strings, preserving its view.
pub fn clone_texts(v: &Vec<String>) -> (r: Vec<String>)
    ensures
        r@.map_values(|s: String| s@) =~= v@.map_values(|s: String| s@),
        r@.len() == v@.len(),
{
    let n = v.len();
    let mut r: Vec<String> = Vec::new();
    let mut i: usize = 0;
    while i < n
        invariant
            n == v@.len(),
            0 <= i <= n,
            r@.len() == i,
            forall|j: int| 0 <= j < i ==> (#[trigger] r@[j])@ == v@[j]@,
        decreases n - i,
    {
        r.push(v[i].clone());
        i += 1;
    }
    proof {
        let rm = r@.map_values(|s: String| s@);
        let vm = v@.map_values(|s: String| s@);
        assert forall|j: int| 0 <= j < n implies rm[j] == vm[j] by {
            assert(r@[j]@ == v@[j]@);
        }
        assert(rm =~= vm);
    }
    r
}

/// Duplicate a vector of byte strings, preserving its view.
pub fn clone_bytes_list(v: &Vec<Vec<u8>>) -> (r: Vec<Vec<u8>>)
    ensures
        r@.map_values(|b: Vec<u8>| b@) =~= v@.map_values(|b: Vec<u8>| b@),
{
    let n = v.len();
    let mut r: Vec<Vec<u8>> = Vec::new();
    let mut i: usize = 0;
    while i < n
        invariant
            n == v@.len(),
            0 <= i <= n,
            r@.len() == i,
            forall|j: int| 0 <= j < i ==> (#[trigger] r@[j])@ == v@[j]@,
        decreases n - i,
    {
        let mut b: Vec<u8> = Vec::new();
        let m = v[i].len();
        let mut k: usize = 0;
        while k < m
            invariant
                i < v@.len(),
                m == v@[i as int]@.len(),
                0 <= k <= m,
                b@ =~= v@[i as int]@.subrange(0, k as int),
            decreases m - k,
        {
            b.push(v[i][k]);
            proof {
                assert(b@ =~= v@[i as int]@.subrange(0, k + 1));
            }
            k += 1;
        }
        proof {
            assert(b@ =~= v@[i as int]@);
        }
        r.push(b);
        i += 1;
    }
    proof {
        let rm = r@.map_values(|b: Vec<u8>| b@);
        let vm = v@.map_values(|b: Vec<u8>| b@);
        assert forall|j: int| 0 <= j < n implies rm[j] == vm[j] by {
            assert(r@[j]@ == v@[j]@);
        }
        assert(rm =~= vm);
    }
    r
}

/// Read a list of strings; a scalar string coerces to a one-element list.
pub fn get_texts(opts: &Vec<RawOpt>, key: &str) -> (r: Result<Option<Vec<String>>, Error>)
    ensures
        match spec_get_texts(opts_view(opts@), key@) {
            Ok(o) => r matches Ok(x) && (match o {
                Some(ts) => x matches Some(l) && l@.map_values(|s: String| s@) == ts,
                None => x is None,
            }),
            Err(()) => r matches Err(e) && (e matches Error::InvalidOptionValue { key: k } && k@
                == key@),
        },
{
    match lookup_raw(opts, key) {
        None => Ok(None),
        Some(v) => match v {
            OptVal::Text(t) => {
                let mut l: Vec<String> = Vec::new();
                l.push(t.clone());
                proof {
                    assert(l@.map_values(|s: String| s@) =~= seq![t@]);
                }
                Ok(Some(l))
            },
            OptVal::TextList(ts) => Ok(Some(clone_texts(ts))),
            OptVal::Null => Ok(None),
            _ => Err(Error::InvalidOptionValue { key: key.to_owned() }),
        },
    }
}

/// Read a list of byte strings (certificates and keys travel this way).
pub fn get_bytes_list(opts: &Vec<RawOpt>, key: &str) -> (r: Result<Option<Vec<Vec<u8>>>, Error>)
    ensures
        match spec_get_bytes(opts_view(opts@), key@) {
            Ok(o) => r matches Ok(x) && (match o {
                Some(bs) => x matches Some(l) && l@.map_values(|b: Vec<u8>| b@) == bs,
                None => x is None,
            }),
            Err(()) => r matches Err(e) && (e matches Error::InvalidOptionValue { key: k } && k@
                == key@),
        },
{
    match lookup_raw(opts, key) {
        None => Ok(None),
        Some(v) => match v {
            OptVal::BytesList(bs) => Ok(Some(clone_bytes_list(bs))),
            OptVal::Null => Ok(None),
            _ => Err(Error::InvalidOptionValue { key: key.to_owned() }),
        },
    }
}

/// Read a single byte string (a certificate or key travels this way).
pub fn get_blob(opts: &Vec<RawOpt>, key: &str) -> (r: Result<Option<Vec<u8>>, Error>)
    ensures
        match spec_get_blob(opts_view(opts@), key@) {
            Ok(o) => r matches Ok(x) && (match o {
                Some(b) => x matches Some(v) && v@ == b,
                None => x is None,
            }),
            Err(()) => r matches Err(e) && (e matches Error::InvalidOptionValue { key: k } && k@
                == key@),
        },
{
    match lookup_raw(opts, key) {
        None => Ok(None),
        Some(v) => match v {
            OptVal::Bytes(b) => {
                let mut c: Vec<u8> = Vec::new();
                let m = b.len();
                let mut k: usize = 0;
                while k < m
                    invariant
                        m == b@.len(),
                        0 <= k <= m,
                        c@ =~= b@.subrange(0, k as int),
                    decreases m - k,
                {
                    c.push(b[k]);
                    proof {
                        assert(c@ =~= b@.subrange(0, k + 1));
                    }
                    k += 1;
                }
                proof {
                    assert(c@ =~= b@);
                }
                Ok(Some(c))
            },
            OptVal::Null => Ok(None),
            _ => Err(Error::InvalidOptionValue { key: key.to_owned() }),
        },
    }
}

/// `s` split at its first colon; meaningful when a colon is present.
pub open spec fn spec_split_pair(s: Seq<char>) -> (Seq<char>, Seq<char>) {
    match spec_find(s, ':') {
        Some(k) => (s.subrange(0, k), s.subrange(k + 1, s.len() as int)),
        None => (s, Seq::empty()),
    }
}

/// Each element split at its first colon; nothing if some element has none.
pub open spec fn spec_split_all(l: Seq<Seq<char>>) -> Option<Seq<(Seq<char>, Seq<char>)>>
    decreases l.len(),
{
    if l.len() == 0 {
        Some(Seq::empty())
    } else {
        match spec_split_all(l.drop_last()) {
            None => None,
            Some(ps) => if spec_find(l.last(), ':') is Some {
                Some(ps.push(spec_split_pair(l.last())))
            } else {
                None
            },
        }
    }
}

proof fn lemma_split_all_none(l: Seq<Seq<char>>, i: int)
    requires
        0 <= i < l.len(),
        spec_find(l[i], ':') is None,
    ensures
        spec_split_all(l) is None,
    decreases l.len(),
{
    if i == l.len() - 1 {
    } else {
        lemma_split_all_none(l.drop_last(), i);
    }
}

/// Read a list of `name:value` pairs (a scalar coerces to one pair). An
/// element without the separator is a malformed pair and is rejected.
#[verifier::loop_isolation(false)]
pub fn get_pairs(opts: &Vec<RawOpt>, key: &str) -> (r: Result<
    Option<Vec<(String, String)>>,
    Error,
>)
    ensures
        match spec_get_pairs(opts_view(opts@), key@) {
            Ok(o) => r matches Ok(x) && (match o {
                Some(ps) => x matches Some(l) && l@.map_values(
                    |p: (String, String)| (p.0@, p.1@),
                ) == ps,
                None => x is None,
            }),
            Err(()) => r matches Err(e) && (e matches Error::InvalidOptionValue { key: k } && k@
                == key@),
        },
{
    let items: Vec<String> = match get_texts(opts, key) {
        Ok(Some(l)) => l,
        Ok(None) => {
            return Ok(None);
        },
        Err(e) => {
            return Err(e);
        },
    };
    let ghost lv = items@.map_values(|s: String| s@);
    let n = items.len();
    let mut out: Vec<(String, String)> = Vec::new();
    let mut i: usize = 0;
    while i < n
        invariant
            n == lv.len(),
            lv == items@.map_values(|s: String| s@),
            0 <= i <= n,
            spec_split_all(lv.subrange(0, i as int)) == Some(
                out@.map_values(|p: (String, String)| (p.0@, p.1@)),
            ),
        decreases n - i,
    {
        match split_at_char(items[i].as_str(), ':') {
            Some(p) => {
                out.push(p);
            },
            None => {
                proof {
                    lemma_split_all_none(lv, i as int);
                }
                return Err(Error::InvalidOptionValue { key: key.to_owned() });
            },
        }
        proof {
            assert(lv.subrange(0, i + 1).drop_last() =~= lv.subrange(0, i as int));
            assert(lv.subrange(0, i + 1).last() == lv[i as int]);
            assert(out@.map_values(|p: (String, String)| (p.0@, p.1@)) =~= out@.map_values(
                |p: (String, String)| (p.0@, p.1@),
            ));
            assert(spec_split_all(lv.subrange(0, i + 1)) == Some(
                out@.map_values(|p: (String, String)| (p.0@, p.1@)),
            ));
        }
        i += 1;
    }
    proof {
        assert(lv.subrange(0, n as int) =~= lv);
    }
    Ok(Some(out))
}

} // verus!
