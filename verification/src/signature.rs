//! The signature that lets the media service trust a request: a digest over
//! the request's parameters, put in one fixed order, and a shared secret.

use crate::text::same_text;
use vstd::prelude::*;
use vstd::string::*;
use vstd::utf8::encode_utf8;

verus! {

// ---------------------------------------------------------------------------
// The order of names
// ---------------------------------------------------------------------------

/// Whether `a` comes strictly before `b` in the lexicographic order of bytes.
pub open spec fn bytes_before(a: Seq<u8>, b: Seq<u8>) -> bool
    decreases a.len(),
{
    if b.len() == 0 {
        false
    } else if a.len() == 0 {
        true
    } else if a[0] != b[0] {
        a[0] < b[0]
    } else {
        bytes_before(a.drop_first(), b.drop_first())
    }
}

/// Whether the name `a` comes strictly before the name `b`: the order of
/// strings, which goes by the bytes of their encoding.
pub open spec fn name_before(a: Seq<char>, b: Seq<char>) -> bool {
    bytes_before(encode_utf8(a), encode_utf8(b))
}

/// Whether each name comes strictly before all that follow it.
pub open spec fn ascending(names: Seq<Seq<char>>) -> bool {
    forall|i: int, j: int| 0 <= i < j < names.len() ==> name_before(names[i], names[j])
}

proof fn lemma_bytes_before_irreflexive(a: Seq<u8>)
    ensures
        !bytes_before(a, a),
    decreases a.len(),
{
    if a.len() > 0 {
        lemma_bytes_before_irreflexive(a.drop_first());
    }
}

proof fn lemma_bytes_before_transitive(a: Seq<u8>, b: Seq<u8>, c: Seq<u8>)
    requires
        bytes_before(a, b),
        bytes_before(b, c),
    ensures
        bytes_before(a, c),
    decreases a.len(),
{
    if a.len() > 0 && a[0] == b[0] && b[0] == c[0] {
        lemma_bytes_before_transitive(a.drop_first(), b.drop_first(), c.drop_first());
    }
}

proof fn lemma_bytes_before_total(a: Seq<u8>, b: Seq<u8>)
    requires
        a != b,
    ensures
        bytes_before(a, b) || bytes_before(b, a),
    decreases a.len(),
{
    if a.len() == 0 && b.len() == 0 {
        assert(a =~= b);
    }
    if a.len() > 0 && b.len() > 0 && a[0] == b[0] {
        if a.drop_first() == b.drop_first() {
            assert(a =~= seq![a[0]] + a.drop_first());
            assert(b =~= seq![b[0]] + b.drop_first());
        }
        lemma_bytes_before_total(a.drop_first(), b.drop_first());
    }
}

/// No name comes before itself.
pub proof fn lemma_name_before_irreflexive(a: Seq<char>)
    ensures
        !name_before(a, a),
{
    lemma_bytes_before_irreflexive(encode_utf8(a));
}

/// The order of names is transitive.
pub proof fn lemma_name_before_transitive(a: Seq<char>, b: Seq<char>, c: Seq<char>)
    requires
        name_before(a, b),
        name_before(b, c),
    ensures
        name_before(a, c),
{
    lemma_bytes_before_transitive(encode_utf8(a), encode_utf8(b), encode_utf8(c));
}

/// Of two different names one comes before the other.
pub proof fn lemma_name_before_total(a: Seq<char>, b: Seq<char>)
    requires
        a != b,
    ensures
        name_before(a, b) || name_before(b, a),
{
    vstd::utf8::encode_utf8_decode_utf8(a);
    vstd::utf8::encode_utf8_decode_utf8(b);
    lemma_bytes_before_total(encode_utf8(a), encode_utf8(b));
}

proof fn lemma_ascending_no_duplicates(names: Seq<Seq<char>>)
    requires
        ascending(names),
    ensures
        names.no_duplicates(),
{
    assert forall|i: int, j: int| 0 <= i < names.len() && 0 <= j < names.len() && i != j implies names[i]
        != names[j] by {
        lemma_name_before_irreflexive(names[i]);
        if i < j {
            assert(name_before(names[i], names[j]));
        } else {
            assert(name_before(names[j], names[i]));
        }
    }
}

/// A set of names can be put in ascending order in one way only.
pub proof fn lemma_ascending_unique(x: Seq<Seq<char>>, y: Seq<Seq<char>>)
    requires
        ascending(x),
        ascending(y),
        x.to_set() == y.to_set(),
    ensures
        x == y,
    decreases x.len(),
{
    lemma_ascending_no_duplicates(x);
    lemma_ascending_no_duplicates(y);
    x.unique_seq_to_set();
    y.unique_seq_to_set();
    assert(x.len() == y.len());
    if x.len() > 0 {
        let n = x.len() as int;
        let xl = x.last();
        let yl = y.last();
        assert(x.to_set().contains(xl));
        assert(y.to_set().contains(yl));
        assert(y.to_set().contains(xl));
        assert(x.to_set().contains(yl));
        let j = choose|j: int| 0 <= j < n && y[j] == xl;
        let i = choose|i: int| 0 <= i < n && x[i] == yl;
        if xl != yl {
            assert(j < n - 1);
            assert(i < n - 1);
            assert(name_before(y[j], y[n - 1]));
            assert(name_before(x[i], x[n - 1]));
            lemma_name_before_transitive(xl, yl, xl);
            lemma_name_before_irreflexive(xl);
        }
        let xs = x.drop_last();
        let ys = y.drop_last();
        assert(xs.to_set() =~= ys.to_set()) by {
            assert forall|name: Seq<char>| xs.to_set().contains(name) implies ys.to_set().contains(
                name,
            ) by {
                let k = choose|k: int| 0 <= k < xs.len() && xs[k] == name;
                assert(x[k] == name);
                assert(x.to_set().contains(name));
                assert(y.to_set().contains(name));
                let m = choose|m: int| 0 <= m < n && y[m] == name;
                assert(m != n - 1);
                assert(ys[m] == name);
            }
            assert forall|name: Seq<char>| ys.to_set().contains(name) implies xs.to_set().contains(
                name,
            ) by {
                let k = choose|k: int| 0 <= k < ys.len() && ys[k] == name;
                assert(y[k] == name);
                assert(y.to_set().contains(name));
                assert(x.to_set().contains(name));
                let m = choose|m: int| 0 <= m < n && x[m] == name;
                assert(m != n - 1);
                assert(xs[m] == name);
            }
        }
        lemma_ascending_unique(xs, ys);
        assert(x =~= xs.push(xl));
        assert(y =~= ys.push(yl));
    }
}

/// Whether the name `a` comes strictly before the name `b`.
pub fn comes_before(a: &str, b: &str) -> (r: bool)
    ensures
        r == name_before(a@, b@),
{
    let x = a.as_bytes();
    let y = b.as_bytes();
    let mut i: usize = 0;
    assert(x@.skip(0) =~= x@ && y@.skip(0) =~= y@);
    while i < x.len() && i < y.len()
        invariant
            i <= x.len(),
            i <= y.len(),
            x@ == encode_utf8(a@),
            y@ == encode_utf8(b@),
            bytes_before(x@, y@) == bytes_before(x@.skip(i as int), y@.skip(i as int)),
        decreases x.len() - i,
    {
        if x[i] != y[i] {
            return x[i] < y[i];
        }
        assert(x@.skip(i as int).drop_first() =~= x@.skip(i + 1));
        assert(y@.skip(i as int).drop_first() =~= y@.skip(i + 1));
        i += 1;
    }
    i < y.len()
}

// ---------------------------------------------------------------------------
// The digest and its rendering
// ---------------------------------------------------------------------------

/// The SHA-1 digest of a message.
pub uninterp spec fn sha1_digest(message: Seq<u8>) -> Seq<u8>;

/// Calls `Sha1::digest` of the crate sha1, which hashes the whole message in
/// one go. The contract gives the digest its name and claims that it is 20
/// bytes long.
#[verifier::external_body]
fn sha1(message: &[u8]) -> (r: Vec<u8>)
    ensures
        r@ == sha1_digest(message@),
        r@.len() == 20,
{
    <sha1::Sha1 as sha1::Digest>::digest(message).to_vec()
}

/// The lower-case hexadecimal digit of a value below 16.
pub open spec fn hex_digit(value: int) -> char {
    "0123456789abcdef"@[value]
}

/// The bytes in lower-case hexadecimal, two digits each, the high one first.
pub open spec fn hex_lower(bytes: Seq<u8>) -> Seq<char> {
    Seq::new(
        2 * bytes.len(),
        |i: int|
            if i % 2 == 0 {
                hex_digit(bytes[i / 2] as int / 16)
            } else {
                hex_digit(bytes[i / 2] as int % 16)
            },
    )
}

/// Whether a character is a lower-case hexadecimal digit: `0` to `9` or `a`
/// to `f`.
pub open spec fn is_lower_hex(c: char) -> bool {
    ('0' <= c <= '9') || ('a' <= c <= 'f')
}

/// Bytes in hexadecimal are twice as many characters, each a lower-case
/// hexadecimal digit.
pub proof fn lemma_hex_lower(bytes: Seq<u8>)
    ensures
        hex_lower(bytes).len() == 2 * bytes.len(),
        forall|i: int| 0 <= i < hex_lower(bytes).len() ==> is_lower_hex(#[trigger] hex_lower(bytes)[i]),
{
    reveal_strlit("0123456789abcdef");
    assert forall|i: int| 0 <= i < hex_lower(bytes).len() implies is_lower_hex(
        #[trigger] hex_lower(bytes)[i],
    ) by {
        let b = bytes[i / 2] as int;
        let v = if i % 2 == 0 {
            b / 16
        } else {
            b % 16
        };
        assert(0 <= v < 16);
        assert(hex_lower(bytes)[i] == hex_digit(v));
    }
}

fn hex_digit_text(value: u8) -> (r: &'static str)
    requires
        value < 16,
    ensures
        r@ == seq![hex_digit(value as int)],
{
    proof {
        reveal_strlit("0123456789abcdef");
        reveal_strlit("0");
        reveal_strlit("1");
        reveal_strlit("2");
        reveal_strlit("3");
        reveal_strlit("4");
        reveal_strlit("5");
        reveal_strlit("6");
        reveal_strlit("7");
        reveal_strlit("8");
        reveal_strlit("9");
        reveal_strlit("a");
        reveal_strlit("b");
        reveal_strlit("c");
        reveal_strlit("d");
        reveal_strlit("e");
        reveal_strlit("f");
    }
    let r = match value {
        0 => "0",
        1 => "1",
        2 => "2",
        3 => "3",
        4 => "4",
        5 => "5",
        6 => "6",
        7 => "7",
        8 => "8",
        9 => "9",
        10 => "a",
        11 => "b",
        12 => "c",
        13 => "d",
        14 => "e",
        _ => "f",
    };
    assert(r@ =~= seq![hex_digit(value as int)]);
    r
}

/// Renders bytes in lower-case hexadecimal.
pub fn to_hex(bytes: &[u8]) -> (r: String)
    ensures
        r@ == hex_lower(bytes@),
        r@.len() == 2 * bytes@.len(),
        forall|i: int| 0 <= i < r@.len() ==> is_lower_hex(#[trigger] r@[i]),
{
    proof {
        lemma_hex_lower(bytes@);
    }
    let mut out = String::new();
    let mut i: usize = 0;
    while i < bytes.len()
        invariant
            i <= bytes.len(),
            out@ == hex_lower(bytes@.take(i as int)),
        decreases bytes.len() - i,
    {
        let b: u8 = bytes[i];
        let ghost before = out@;
        out.append(hex_digit_text(b / 16));
        out.append(hex_digit_text(b % 16));
        assert(out@ =~= hex_lower(bytes@.take(i + 1))) by {
            let next = hex_lower(bytes@.take(i + 1));
            assert(out@.len() == next.len());
            assert forall|k: int| 0 <= k < next.len() implies out@[k] == next[k] by {
                if k < 2 * i {
                    assert(bytes@.take(i as int)[k / 2] == bytes@.take(i + 1)[k / 2]);
                    assert(out@[k] == before[k]);
                } else {
                    assert(bytes@.take(i + 1)[k / 2] == b);
                }
            }
        }
        i += 1;
    }
    assert(bytes@.take(i as int) =~= bytes@);
    out
}

// ---------------------------------------------------------------------------
// The parameters
// ---------------------------------------------------------------------------

spec fn distinct_names(entries: Seq<(String, String)>) -> bool {
    forall|i: int, j: int|
        0 <= i < j < entries.len() ==> (#[trigger] entries[i]).0@ != (#[trigger] entries[j]).0@
}

spec fn has_name(entries: Seq<(String, String)>, name: Seq<char>) -> bool {
    exists|i: int| 0 <= i < entries.len() && (#[trigger] entries[i]).0@ == name
}

spec fn entries_map(entries: Seq<(String, String)>) -> Map<Seq<char>, Seq<char>> {
    Map::new(
        |name: Seq<char>| has_name(entries, name),
        |name: Seq<char>|
            entries[choose|i: int| 0 <= i < entries.len() && (#[trigger] entries[i]).0@ == name].1@,
    )
}

proof fn lemma_entries_map_finite(entries: Seq<(String, String)>)
    ensures
        entries_map(entries).dom().finite(),
{
    let names = Seq::new(entries.len(), |i: int| entries[i].0@);
    assert(entries_map(entries).dom() =~= names.to_set()) by {
        assert forall|name: Seq<char>| has_name(entries, name) implies names.to_set().contains(
            name,
        ) by {
            let k = choose|k: int| 0 <= k < entries.len() && (#[trigger] entries[k]).0@ == name;
            assert(names[k] == name);
        }
        assert forall|name: Seq<char>| names.to_set().contains(name) implies has_name(
            entries,
            name,
        ) by {
            let k = choose|k: int| 0 <= k < names.len() && names[k] == name;
            assert(entries[k].0@ == name);
        }
    }
    vstd::seq_lib::seq_to_set_is_finite(names);
}

proof fn lemma_entry_in_map(entries: Seq<(String, String)>, i: int)
    requires
        distinct_names(entries),
        0 <= i < entries.len(),
    ensures
        entries_map(entries).dom().contains(entries[i].0@),
        entries_map(entries)[entries[i].0@] == entries[i].1@,
{
    let name = entries[i].0@;
    assert(has_name(entries, name));
    let k = choose|k: int| 0 <= k < entries.len() && (#[trigger] entries[k]).0@ == name;
    if k < i {
        assert(entries[k].0@ != entries[i].0@);
    } else if i < k {
        assert(entries[i].0@ != entries[k].0@);
    }
}

/// Putting a value under a name, in place of the entry at `at` where the
/// name stands there, or behind all entries where it stands nowhere, is
/// putting it into the map.
proof fn lemma_put(
    before: Seq<(String, String)>,
    after: Seq<(String, String)>,
    at: int,
    name: Seq<char>,
    value: Seq<char>,
)
    requires
        distinct_names(before),
        0 <= at <= before.len(),
        after.len() == if at < before.len() {
            before.len()
        } else {
            before.len() + 1
        },
        after[at].0@ == name,
        after[at].1@ == value,
        at < before.len() ==> before[at].0@ == name,
        forall|k: int|
            0 <= k < before.len() && k != at ==> (#[trigger] after[k]) == before[k]
                && before[k].0@ != name,
    ensures
        distinct_names(after),
        entries_map(after) =~= entries_map(before).insert(name, value),
{
    assert forall|a: int, b: int| 0 <= a < b < after.len() implies (#[trigger] after[a]).0@ != (
    #[trigger] after[b]).0@ by {
        if a != at && b != at {
            assert(before[a].0@ != before[b].0@);
        }
    }
    assert forall|n: Seq<char>| has_name(after, n) <==> has_name(before, n) || n == name by {
        if has_name(after, n) {
            let k = choose|k: int| 0 <= k < after.len() && (#[trigger] after[k]).0@ == n;
            if k != at {
                assert(before[k].0@ == n);
            }
        }
        if has_name(before, n) {
            let k = choose|k: int| 0 <= k < before.len() && (#[trigger] before[k]).0@ == n;
            assert(after[k].0@ == n);
        }
        if n == name {
            assert(after[at].0@ == n);
        }
    }
    assert forall|n: Seq<char>| has_name(after, n) implies entries_map(after)[n] == entries_map(
        before,
    ).insert(name, value)[n] by {
        let k = choose|k: int| 0 <= k < after.len() && (#[trigger] after[k]).0@ == n;
        lemma_entry_in_map(after, k);
        if n == name {
            lemma_entry_in_map(after, at);
        } else {
            assert(before[k].0@ == n);
            lemma_entry_in_map(before, k);
        }
    }
}

/// The named parameters of a request. A name stands in it once: putting a
/// value under a name that is there replaces the value.
pub struct SignatureParams {
    entries: Vec<(String, String)>,
}

impl View for SignatureParams {
    type V = Map<Seq<char>, Seq<char>>;

    closed spec fn view(&self) -> Map<Seq<char>, Seq<char>> {
        entries_map(self.entries@)
    }
}

impl SignatureParams {
    #[verifier::type_invariant]
    spec fn well_formed(self) -> bool {
        distinct_names(self.entries@)
    }

    /// The parameters are finitely many.
    pub proof fn view_is_finite(self)
        ensures
            self@.dom().finite(),
    {
        lemma_entries_map_finite(self.entries@);
    }

    /// No parameters.
    pub fn new() -> (r: SignatureParams)
        ensures
            r@ == Map::<Seq<char>, Seq<char>>::empty(),
            r@.dom().finite(),
    {
        let r = SignatureParams { entries: Vec::new() };
        assert(r@ =~= Map::<Seq<char>, Seq<char>>::empty());
        r
    }

    /// Puts `value` under `name`, in place of what stood there.
    pub fn insert(&mut self, name: &str, value: &str)
        ensures
            final(self)@ == old(self)@.insert(name@, value@),
            final(self)@.dom().finite(),
    {
        proof {
            use_type_invariant(&*self);
        }
        let mut entries: Vec<(String, String)> = Vec::new();
        std::mem::swap(&mut entries, &mut self.entries);
        let ghost before = entries@;
        let mut i: usize = 0;
        while i < entries.len()
            invariant
                i <= entries.len(),
                entries@ == before,
                old(self)@ == entries_map(before),
                distinct_names(before),
                forall|j: int| 0 <= j < i ==> (#[trigger] before[j]).0@ != name@,
            decreases entries.len() - i,
        {
            if same_text(entries[i].0.as_str(), name) {
                entries.set(i, (name.to_owned(), value.to_owned()));
                proof {
                    assert forall|k: int| 0 <= k < before.len() && k != i implies (
                    #[trigger] entries@[k]) == before[k] && before[k].0@ != name@ by {
                        if k < i {
                            assert(before[k].0@ != name@);
                        } else {
                            assert(before[i as int].0@ != before[k].0@);
                        }
                    }
                    lemma_put(before, entries@, i as int, name@, value@);
                    lemma_entries_map_finite(entries@);
                }
                self.entries = entries;
                return ;
            }
            i += 1;
        }
        entries.push((name.to_owned(), value.to_owned()));
        proof {
            lemma_put(before, entries@, before.len() as int, name@, value@);
            lemma_entries_map_finite(entries@);
        }
        self.entries = entries;
    }
}

// ---------------------------------------------------------------------------
// Signing
// ---------------------------------------------------------------------------

/// Whether a parameter of this name is signed. The key and the signature
/// itself travel with a request and are not.
pub open spec fn is_signed(name: Seq<char>) -> bool {
    name != "api_key"@ && name != "signature"@
}

/// The names of the parameters that are signed.
pub open spec fn signed_names(params: Map<Seq<char>, Seq<char>>) -> Set<Seq<char>> {
    params.dom().filter(|name: Seq<char>| is_signed(name))
}

/// The names of a set in ascending order.
pub open spec fn in_order(names: Set<Seq<char>>) -> Seq<Seq<char>> {
    choose|order: Seq<Seq<char>>| ascending(order) && order.to_set() == names
}

/// The parameters under `names`, each as `name=value`, joined by `&`.
pub open spec fn query_string(params: Map<Seq<char>, Seq<char>>, names: Seq<Seq<char>>) -> Seq<
    char,
>
    decreases names.len(),
{
    if names.len() == 0 {
        Seq::empty()
    } else {
        let pair = names.last() + seq!['='] + params[names.last()];
        if names.len() == 1 {
            pair
        } else {
            query_string(params, names.drop_last()) + seq!['&'] + pair
        }
    }
}

/// The text that is hashed: the signed parameters in the order of their
/// names, as a query string, with the secret right behind it.
pub open spec fn signing_text(params: Map<Seq<char>, Seq<char>>, secret: Seq<char>) -> Seq<char> {
    query_string(params, in_order(signed_names(params))) + secret
}

/// The signature of the parameters under the secret: the SHA-1 digest of the
/// signing text, in lower-case hexadecimal.
pub open spec fn signature_of(params: Map<Seq<char>, Seq<char>>, secret: Seq<char>) -> Seq<char> {
    hex_lower(sha1_digest(encode_utf8(signing_text(params, secret))))
}

spec fn names_at(entries: Seq<(String, String)>, order: Seq<usize>) -> Seq<Seq<char>> {
    Seq::new(order.len(), |k: int| entries[order[k] as int].0@)
}

fn is_signed_name(name: &str) -> (r: bool)
    ensures
        r == is_signed(name@),
{
    !same_text(name, "api_key") && !same_text(name, "signature")
}

/// The positions of the entries that are signed, in the order of their names.
fn signed_order(entries: &Vec<(String, String)>) -> (order: Vec<usize>)
    requires
        distinct_names(entries@),
    ensures
        forall|k: int| 0 <= k < order@.len() ==> (#[trigger] order@[k]) < entries@.len(),
        ascending(names_at(entries@, order@)),
        names_at(entries@, order@).to_set() == signed_names(entries_map(entries@)),
{
    let mut order: Vec<usize> = Vec::new();
    let mut i: usize = 0;
    while i < entries.len()
        invariant
            i <= entries.len(),
            distinct_names(entries@),
            forall|k: int|
                0 <= k < order@.len() ==> (#[trigger] order@[k]) < i && is_signed(
                    entries@[order@[k] as int].0@,
                ),
            forall|j: int|
                0 <= j < i && is_signed((#[trigger] entries@[j]).0@) ==> order@.contains(
                    j as usize,
                ),
            ascending(names_at(entries@, order@)),
        decreases entries.len() - i,
    {
        let ghost old_order = order@;
        let ghost old_names = names_at(entries@, old_order);
        let ghost new = entries@[i as int].0@;
        if is_signed_name(entries[i].0.as_str()) {
            let mut p: usize = 0;
            while p < order.len() && comes_before(entries[order[p]].0.as_str(), entries[i].0.as_str())
                invariant
                    p <= order.len(),
                    i < entries.len(),
                    order@ == old_order,
                    old_names == names_at(entries@, old_order),
                    new == entries@[i as int].0@,
                    forall|k: int| 0 <= k < order@.len() ==> (#[trigger] order@[k]) < i,
                    forall|q: int| 0 <= q < p ==> name_before(#[trigger] old_names[q], new),
                decreases order.len() - p,
            {
                p += 1;
            }
            proof {
                assert forall|q: int| p <= q < old_names.len() implies name_before(
                    new,
                    #[trigger] old_names[q],
                ) by {
                    let at_p = old_names[p as int];
                    assert(old_order[p as int] < i);
                    assert(entries@[old_order[p as int] as int].0@ != entries@[i as int].0@);
                    lemma_name_before_total(at_p, new);
                    if p < q {
                        assert(name_before(old_names[p as int], old_names[q]));
                        lemma_name_before_transitive(new, at_p, old_names[q]);
                    }
                }
            }
            order.insert(p, i);
            proof {
                let names = names_at(entries@, order@);
                assert(names =~= old_names.insert(p as int, new));
                assert(ascending(names)) by {
                    assert forall|a: int, b: int| 0 <= a < b < names.len() implies name_before(
                        names[a],
                        names[b],
                    ) by {
                        if b < p {
                            assert(name_before(old_names[a], old_names[b]));
                        } else if b == p {
                            assert(name_before(old_names[a], new));
                        } else if a < p {
                            assert(name_before(old_names[a], old_names[b - 1]));
                        } else if a == p {
                            assert(name_before(new, old_names[b - 1]));
                        } else {
                            assert(name_before(old_names[a - 1], old_names[b - 1]));
                        }
                    }
                }
                assert forall|k: int| 0 <= k < order@.len() implies (#[trigger] order@[k]) < i + 1
                    && is_signed(entries@[order@[k] as int].0@) by {
                    if k < p {
                        assert(order@[k] == old_order[k]);
                    } else if k > p {
                        assert(order@[k] == old_order[k - 1]);
                    }
                }
                assert forall|j: int|
                    0 <= j < i + 1 && is_signed((#[trigger] entries@[j]).0@) implies order@.contains(
                    j as usize,
                ) by {
                    if j == i {
                        assert(order@[p as int] == j as usize);
                    } else {
                        assert(old_order.contains(j as usize));
                        let k = choose|k: int| 0 <= k < old_order.len() && old_order[k] == j as usize;
                        if k < p {
                            assert(order@[k] == j as usize);
                        } else {
                            assert(order@[k + 1] == j as usize);
                        }
                    }
                }
            }
        }
        i += 1;
    }
    proof {
        let names = names_at(entries@, order@);
        let map = entries_map(entries@);
        assert forall|name: Seq<char>| names.to_set().contains(name) implies signed_names(
            map,
        ).contains(name) by {
            let k = choose|k: int| 0 <= k < names.len() && names[k] == name;
            assert(order@[k] < entries@.len());
            assert(entries@[order@[k] as int].0@ == name);
            assert(has_name(entries@, name));
        }
        assert forall|name: Seq<char>| signed_names(map).contains(name) implies names.to_set().contains(
            name,
        ) by {
            assert(has_name(entries@, name));
            let j = choose|j: int| 0 <= j < entries@.len() && (#[trigger] entries@[j]).0@ == name;
            assert(order@.contains(j as usize));
            let k = choose|k: int| 0 <= k < order@.len() && order@[k] == j as usize;
            assert(names[k] == name);
        }
        assert(names.to_set() =~= signed_names(map));
    }
    order
}

/// Signs the parameters with the secret. The signature is forty lower-case
/// hexadecimal digits.
pub fn sign(params: &SignatureParams, secret: &str) -> (r: String)
    ensures
        r@ == signature_of(params@, secret@),
        r@.len() == 40,
        forall|i: int| 0 <= i < r@.len() ==> is_lower_hex(#[trigger] r@[i]),
{
    proof {
        use_type_invariant(params);
    }
    let order = signed_order(&params.entries);
    let ghost names = names_at(params.entries@, order@);
    proof {
        lemma_ascending_unique(in_order(signed_names(params@)), names);
    }
    let mut text = String::new();
    let mut k: usize = 0;
    while k < order.len()
        invariant
            k <= order.len(),
            distinct_names(params.entries@),
            names == names_at(params.entries@, order@),
            forall|q: int| 0 <= q < order@.len() ==> (#[trigger] order@[q]) < params.entries@.len(),
            text@ == query_string(entries_map(params.entries@), names.take(k as int)),
        decreases order.len() - k,
    {
        let entry = &params.entries[order[k]];
        proof {
            reveal_strlit("&");
            reveal_strlit("=");
            lemma_entry_in_map(params.entries@, order@[k as int] as int);
            assert(names.take(k + 1).drop_last() =~= names.take(k as int));
            assert(names.take(k + 1).last() == entry.0@);
        }
        if k > 0 {
            text.append("&");
        }
        text.append(entry.0.as_str());
        text.append("=");
        text.append(entry.1.as_str());
        proof {
            let m = entries_map(params.entries@);
            let pair = entry.0@ + seq!['='] + entry.1@;
            if k == 0 {
                assert(text@ =~= pair);
            } else {
                assert(text@ =~= query_string(m, names.take(k as int)) + seq!['&'] + pair);
            }
        }
        k += 1;
    }
    proof {
        assert(names.take(k as int) =~= names);
    }
    text.append(secret);
    let digest = sha1(text.as_str().as_bytes());
    to_hex(digest.as_slice())
}

// ---------------------------------------------------------------------------
// What holds of signing
// ---------------------------------------------------------------------------

spec fn insertion_point(order: Seq<Seq<char>>, name: Seq<char>) -> int
    decreases order.len(),
{
    if order.len() == 0 {
        0
    } else if name_before(order.last(), name) {
        order.len() as int
    } else {
        insertion_point(order.drop_last(), name)
    }
}

proof fn lemma_insertion_point(order: Seq<Seq<char>>, name: Seq<char>)
    requires
        ascending(order),
        !order.contains(name),
    ensures
        0 <= insertion_point(order, name) <= order.len(),
        forall|q: int|
            0 <= q < insertion_point(order, name) ==> name_before(#[trigger] order[q], name),
        forall|q: int|
            insertion_point(order, name) <= q < order.len() ==> name_before(
                name,
                #[trigger] order[q],
            ),
    decreases order.len(),
{
    if order.len() > 0 {
        let last = order.last();
        if name_before(last, name) {
            assert forall|q: int| 0 <= q < order.len() implies name_before(
                #[trigger] order[q],
                name,
            ) by {
                if q < order.len() - 1 {
                    assert(name_before(order[q], order[order.len() - 1]));
                    lemma_name_before_transitive(order[q], last, name);
                }
            }
        } else {
            let shorter = order.drop_last();
            assert(!shorter.contains(name)) by {
                if shorter.contains(name) {
                    let k = choose|k: int| 0 <= k < shorter.len() && shorter[k] == name;
                    assert(order[k] == name);
                }
            }
            lemma_insertion_point(shorter, name);
            assert(order[order.len() - 1] != name);
            lemma_name_before_total(last, name);
            assert forall|q: int|
                insertion_point(order, name) <= q < order.len() implies name_before(
                name,
                #[trigger] order[q],
            ) by {
                if q < order.len() - 1 {
                    assert(shorter[q] == order[q]);
                }
            }
            assert forall|q: int| 0 <= q < insertion_point(order, name) implies name_before(
                #[trigger] order[q],
                name,
            ) by {
                assert(shorter[q] == order[q]);
            }
        }
    }
}

proof fn lemma_order_exists(names: Set<Seq<char>>)
    requires
        names.finite(),
    ensures
        exists|order: Seq<Seq<char>>| ascending(order) && order.to_set() == names,
    decreases names.len(),
{
    if names.len() == 0 {
        let order = Seq::<Seq<char>>::empty();
        assert(order.to_set() =~= names);
        assert(ascending(order) && order.to_set() == names);
    } else {
        let name = names.choose();
        let rest = names.remove(name);
        lemma_order_exists(rest);
        let before = choose|order: Seq<Seq<char>>| ascending(order) && order.to_set() == rest;
        assert(!before.contains(name)) by {
            if before.contains(name) {
                assert(before.to_set().contains(name));
            }
        }
        lemma_insertion_point(before, name);
        let at = insertion_point(before, name);
        let order = before.insert(at, name);
        assert(ascending(order)) by {
            assert forall|a: int, b: int| 0 <= a < b < order.len() implies name_before(
                order[a],
                order[b],
            ) by {
                if b < at {
                    assert(name_before(before[a], before[b]));
                } else if b == at {
                    assert(name_before(before[a], name));
                } else if a < at {
                    assert(name_before(before[a], before[b - 1]));
                } else if a == at {
                    assert(name_before(name, before[b - 1]));
                } else {
                    assert(name_before(before[a - 1], before[b - 1]));
                }
            }
        }
        assert(order.to_set() =~= names) by {
            assert forall|other: Seq<char>| order.to_set().contains(other) implies names.contains(
                other,
            ) by {
                let k = choose|k: int| 0 <= k < order.len() && order[k] == other;
                if k < at {
                    assert(before[k] == other);
                    assert(before.to_set().contains(other));
                } else if k > at {
                    assert(before[k - 1] == other);
                    assert(before.to_set().contains(other));
                }
            }
            assert forall|other: Seq<char>| names.contains(other) implies order.to_set().contains(
                other,
            ) by {
                if other == name {
                    assert(order[at] == other);
                } else {
                    assert(rest.contains(other));
                    assert(before.to_set().contains(other));
                    let k = choose|k: int| 0 <= k < before.len() && before[k] == other;
                    if k < at {
                        assert(order[k] == other);
                    } else {
                        assert(order[k + 1] == other);
                    }
                }
            }
        }
        assert(ascending(order) && order.to_set() == names);
    }
}

/// A finite set of names has an ascending order, and `in_order` is it: it
/// holds each name of the set once, the lesser before the greater.
pub proof fn lemma_in_order(names: Set<Seq<char>>)
    requires
        names.finite(),
    ensures
        ascending(in_order(names)),
        in_order(names).to_set() == names,
        in_order(names).no_duplicates(),
{
    lemma_order_exists(names);
    lemma_ascending_no_duplicates(in_order(names));
}

/// Signing is a function of the parameters and the secret: the same
/// parameters under the same secret have the same signature.
pub proof fn signing_is_deterministic(
    one: Map<Seq<char>, Seq<char>>,
    other: Map<Seq<char>, Seq<char>>,
    secret: Seq<char>,
)
    requires
        one =~= other,
    ensures
        signature_of(one, secret) == signature_of(other, secret),
{
}

/// The order in which parameters are put in does not show in the signature.
pub proof fn signature_ignores_insertion_order(
    params: Map<Seq<char>, Seq<char>>,
    name: Seq<char>,
    value: Seq<char>,
    other_name: Seq<char>,
    other_value: Seq<char>,
    secret: Seq<char>,
)
    requires
        name != other_name,
    ensures
        signature_of(params.insert(name, value).insert(other_name, other_value), secret)
            == signature_of(params.insert(other_name, other_value).insert(name, value), secret),
{
    assert(params.insert(name, value).insert(other_name, other_value) =~= params.insert(
        other_name,
        other_value,
    ).insert(name, value));
}

proof fn lemma_query_string_agrees(
    one: Map<Seq<char>, Seq<char>>,
    other: Map<Seq<char>, Seq<char>>,
    names: Seq<Seq<char>>,
)
    requires
        forall|k: int| 0 <= k < names.len() ==> one[#[trigger] names[k]] == other[names[k]],
    ensures
        query_string(one, names) == query_string(other, names),
    decreases names.len(),
{
    if names.len() > 1 {
        let shorter = names.drop_last();
        assert forall|k: int| 0 <= k < shorter.len() implies one[#[trigger] shorter[k]]
            == other[shorter[k]] by {
            assert(shorter[k] == names[k]);
        }
        lemma_query_string_agrees(one, other, shorter);
    }
    if names.len() > 0 {
        assert(names.last() == names[names.len() - 1]);
    }
}

proof fn lemma_unequal_with_suffix(a: Seq<char>, b: Seq<char>, suffix: Seq<char>)
    requires
        a != b,
    ensures
        a + suffix != b + suffix,
{
    if a + suffix == b + suffix {
        assert(a.len() == b.len()) by {
            assert((a + suffix).len() == (b + suffix).len());
        }
        assert(a =~= b) by {
            assert forall|k: int| 0 <= k < a.len() implies a[k] == b[k] by {
                assert((a + suffix)[k] == (b + suffix)[k]);
            }
        }
    }
}

proof fn lemma_unequal_with_prefix(prefix: Seq<char>, a: Seq<char>, b: Seq<char>)
    requires
        a != b,
    ensures
        prefix + a != prefix + b,
{
    if prefix + a == prefix + b {
        assert(a.len() == b.len()) by {
            assert((prefix + a).len() == (prefix + b).len());
        }
        assert(a =~= b) by {
            assert forall|k: int| 0 <= k < a.len() implies a[k] == b[k] by {
                assert((prefix + a)[prefix.len() + k] == (prefix + b)[prefix.len() + k]);
            }
        }
    }
}

proof fn lemma_query_string_differs(
    one: Map<Seq<char>, Seq<char>>,
    other: Map<Seq<char>, Seq<char>>,
    names: Seq<Seq<char>>,
    at: int,
)
    requires
        0 <= at < names.len(),
        one[names[at]] != other[names[at]],
        forall|k: int|
            0 <= k < names.len() && k != at ==> one[#[trigger] names[k]] == other[names[k]],
    ensures
        query_string(one, names) != query_string(other, names),
    decreases names.len(),
{
    let last = names.last();
    assert(last == names[names.len() - 1]);
    let shorter = names.drop_last();
    assert forall|k: int| 0 <= k < shorter.len() implies #[trigger] shorter[k] == names[k] by {}
    if at == names.len() - 1 {
        lemma_query_string_agrees(one, other, shorter);
        let head = if names.len() == 1 {
            last + seq!['=']
        } else {
            query_string(one, shorter) + seq!['&'] + last + seq!['=']
        };
        assert(query_string(one, names) =~= head + one[last]);
        assert(query_string(other, names) =~= head + other[last]);
        lemma_unequal_with_prefix(head, one[last], other[last]);
    } else {
        lemma_query_string_differs(one, other, shorter, at);
        let tail = seq!['&'] + last + seq!['='] + one[last];
        assert(query_string(one, names) =~= query_string(one, shorter) + tail);
        assert(query_string(other, names) =~= query_string(other, shorter) + tail);
        lemma_unequal_with_suffix(query_string(one, shorter), query_string(other, shorter), tail);
    }
}

/// A changed value changes what is hashed. Where a signed parameter of a
/// finite set of parameters is given another value, the signing text is
/// another one. (Whether the digests differ too is up to SHA-1.)
pub proof fn changed_value_changes_signing_text(
    params: Map<Seq<char>, Seq<char>>,
    name: Seq<char>,
    value: Seq<char>,
    secret: Seq<char>,
)
    requires
        params.dom().finite(),
        params.dom().contains(name),
        is_signed(name),
        params[name] != value,
    ensures
        signing_text(params, secret) != signing_text(params.insert(name, value), secret),
{
    let changed = params.insert(name, value);
    assert(signed_names(changed) =~= signed_names(params));
    let names = in_order(signed_names(params));
    lemma_in_order(signed_names(params));
    assert(names.to_set().contains(name));
    let at = choose|at: int| 0 <= at < names.len() && names[at] == name;
    assert forall|k: int| 0 <= k < names.len() && k != at implies params[#[trigger] names[k]]
        == changed[names[k]] by {
        assert(names[k] != names[at]);
    }
    lemma_query_string_differs(params, changed, names, at);
    lemma_unequal_with_suffix(query_string(params, names), query_string(changed, names), secret);
}

/// A changed value changes what is signed. Where a signed parameter of a
/// request is given another value, the signing text of the request is
/// another one, so the two signatures are the digests of different texts.
pub proof fn changed_value_changes_signed_request(
    params: SignatureParams,
    name: Seq<char>,
    value: Seq<char>,
    secret: Seq<char>,
)
    requires
        params@.dom().contains(name),
        is_signed(name),
        params@[name] != value,
    ensures
        signing_text(params@, secret) != signing_text(params@.insert(name, value), secret),
        signature_of(params@, secret) == hex_lower(
            sha1_digest(encode_utf8(signing_text(params@, secret))),
        ),
        signature_of(params@.insert(name, value), secret) == hex_lower(
            sha1_digest(encode_utf8(signing_text(params@.insert(name, value), secret))),
        ),
{
    params.view_is_finite();
    changed_value_changes_signing_text(params@, name, value, secret);
}

} // verus!
