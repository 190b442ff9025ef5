use vstd::prelude::*;

verus! {

/// One line of a benchmark client's report: the client's id, how many
/// messages it sent, their payload size and the throughput it reached.
pub struct Print {
    pub id: String,
    pub messages: usize,
    pub payload_size: usize,
    pub throughput: usize,
}

/// `s` with every occurrence of the non-empty pattern `from` replaced by `to`,
/// occurrences taken left to right without overlap (what `str::replace`
/// computes for a non-empty pattern). An empty pattern leaves `s` unchanged.
pub open spec fn replace_all(s: Seq<char>, from: Seq<char>, to: Seq<char>) -> Seq<char>
    decreases s.len(),
{
    if s.len() == 0 || from.len() == 0 {
        s
    } else if from.len() <= s.len() && s.take(from.len() as int) == from {
        to + replace_all(s.skip(from.len() as int), from, to)
    } else {
        seq![s[0]] + replace_all(s.skip(1), from, to)
    }
}

/// The extension of a profile in protobuf form.
pub open spec fn pb_ext() -> Seq<char> {
    seq!['.', 'p', 'b']
}

/// The extension of a flamegraph.
pub open spec fn svg_ext() -> Seq<char> {
    seq!['.', 's', 'v', 'g']
}

/// The name of the flamegraph that goes with the profile written to `name`:
/// every ".pb" in it becomes ".svg".
pub open spec fn svg_name_of(name: Seq<char>) -> Seq<char> {
    replace_all(name, pb_ext(), svg_ext())
}

/// Whether `p` occurs in `s` starting at index `i`.
pub open spec fn occurs_at(s: Seq<char>, p: Seq<char>, i: int) -> bool {
    0 <= i && i + p.len() <= s.len() && s.subrange(i, i + p.len()) == p
}

/// The first `p.len()` characters of `s` are `p` exactly when `p` occurs at index 0.
proof fn lemma_take_is_occurrence(s: Seq<char>, p: Seq<char>)
    requires
        p.len() <= s.len(),
    ensures
        (s.take(p.len() as int) == p) == occurs_at(s, p, 0),
{
    assert(s.subrange(0, p.len() as int) =~= s.take(p.len() as int));
}

/// Renaming keeps a name empty or non-empty, and keeps its first character.
proof fn lemma_svg_name_first(s: Seq<char>)
    ensures
        (svg_name_of(s).len() == 0) == (s.len() == 0),
        s.len() > 0 ==> svg_name_of(s)[0] == s[0],
{
    if s.len() > 0 {
        if 3 <= s.len() && s.take(3) == pb_ext() {
            assert(s.take(3)[0] == s[0]);
        }
    }
}

/// Replacing a pattern that does not occur leaves the text as it is.
pub proof fn law_replace_without_match(s: Seq<char>, from: Seq<char>, to: Seq<char>)
    requires
        forall|i: int| !#[trigger] occurs_at(s, from, i),
    ensures
        replace_all(s, from, to) == s,
    decreases s.len(),
{
    if s.len() > 0 && from.len() > 0 {
        if from.len() <= s.len() {
            lemma_take_is_occurrence(s, from);
        }
        let t = s.skip(1);
        assert forall|i: int| !#[trigger] occurs_at(t, from, i) by {
            if occurs_at(t, from, i) {
                assert(s.subrange(i + 1, i + 1 + from.len()) =~= t.subrange(i, i + from.len()));
                assert(occurs_at(s, from, i + 1));
            }
        }
        law_replace_without_match(t, from, to);
        assert(seq![s[0]] + t =~= s);
    }
}

/// No ".pb" is left in the name of a flamegraph.
pub proof fn law_svg_name_has_no_pb(name: Seq<char>)
    ensures
        forall|i: int| !#[trigger] occurs_at(svg_name_of(name), pb_ext(), i),
    decreases name.len(),
{
    let r = svg_name_of(name);
    if name.len() > 0 {
        if 3 <= name.len() && name.take(3) == pb_ext() {
            let x = svg_name_of(name.skip(3));
            law_svg_name_has_no_pb(name.skip(3));
            assert(r == svg_ext() + x);
            assert forall|i: int| !#[trigger] occurs_at(r, pb_ext(), i) by {
                if occurs_at(r, pb_ext(), i) {
                    let w = r.subrange(i, i + 3);
                    assert(w[0] == r[i]);
                    assert(w[1] == r[i + 1]);
                    if i >= 4 {
                        assert(x.subrange(i - 4, i - 1) =~= w);
                        assert(occurs_at(x, pb_ext(), i - 4));
                    }
                }
            }
        } else {
            let t = name.skip(1);
            let x = svg_name_of(t);
            law_svg_name_has_no_pb(t);
            assert(r == seq![name[0]] + x);
            assert forall|i: int| !#[trigger] occurs_at(r, pb_ext(), i) by {
                if occurs_at(r, pb_ext(), i) {
                    let w = r.subrange(i, i + 3);
                    if i >= 1 {
                        assert(x.subrange(i - 1, i + 2) =~= w);
                        assert(occurs_at(x, pb_ext(), i - 1));
                    } else {
                        assert(w[0] == r[0] && w[1] == r[1] && w[2] == r[2]);
                        lemma_svg_name_first(t);
                        let u = t.skip(1);
                        assert(!(3 <= t.len() && t.take(3) == pb_ext())) by {
                            if 3 <= t.len() && t.take(3) == pb_ext() {
                                assert(t.take(3)[0] == t[0]);
                            }
                        }
                        assert(x == seq![t[0]] + svg_name_of(u));
                        lemma_svg_name_first(u);
                        assert(name.take(3) =~= pb_ext()) by {
                            assert(name[0] == '.');
                            assert(name[1] == t[0]);
                            assert(name[2] == u[0]);
                        }
                    }
                }
            }
        }
    }
}

/// A name in which ".pb" never occurs names its own flamegraph: no character
/// of it is changed, dropped or added.
pub proof fn law_svg_name_keeps_plain_names(name: Seq<char>)
    requires
        forall|i: int| !#[trigger] occurs_at(name, pb_ext(), i),
    ensures
        svg_name_of(name) == name,
{
    law_replace_without_match(name, pb_ext(), svg_ext());
}

/// Renaming at the first ".pb": everything before it is copied unchanged,
/// the ".pb" becomes ".svg", and the rest of the name is renamed on its own.
pub proof fn law_svg_name_splits_at_first_pb(name: Seq<char>, i: int)
    requires
        occurs_at(name, pb_ext(), i),
        forall|j: int| 0 <= j < i ==> !#[trigger] occurs_at(name, pb_ext(), j),
    ensures
        svg_name_of(name) == name.take(i) + svg_ext() + svg_name_of(name.skip(i + 3)),
    decreases i,
{
    if i == 0 {
        lemma_take_is_occurrence(name, pb_ext());
        assert(name.take(0) + svg_ext() =~= svg_ext());
    } else {
        assert(!occurs_at(name, pb_ext(), 0));
        if 3 <= name.len() {
            lemma_take_is_occurrence(name, pb_ext());
        }
        let t = name.skip(1);
        assert(t.subrange(i - 1, i + 2) =~= name.subrange(i, i + 3));
        assert forall|j: int| 0 <= j < i - 1 implies !#[trigger] occurs_at(t, pb_ext(), j) by {
            if occurs_at(t, pb_ext(), j) {
                assert(name.subrange(j + 1, j + 4) =~= t.subrange(j, j + 3));
                assert(occurs_at(name, pb_ext(), j + 1));
            }
        }
        law_svg_name_splits_at_first_pb(t, i - 1);
        assert(t.skip(i - 1 + 3) =~= name.skip(i + 3));
        assert(seq![name[0]] + t.take(i - 1) =~= name.take(i));
        assert(svg_name_of(name) == seq![name[0]] + svg_name_of(t));
        assert(seq![name[0]] + (t.take(i - 1) + svg_ext() + svg_name_of(t.skip(i + 2)))
            =~= name.take(i) + svg_ext() + svg_name_of(name.skip(i + 3)));
    }
}

/// Renaming never shortens a name: each ".pb" replaced adds one character,
/// and the length stays the same exactly when ".pb" never occurs.
pub proof fn law_svg_name_length(name: Seq<char>)
    ensures
        svg_name_of(name).len() >= name.len(),
        (svg_name_of(name).len() == name.len()) == (forall|i: int| !#[trigger] occurs_at(name, pb_ext(), i)),
    decreases name.len(),
{
    if name.len() > 0 {
        if 3 <= name.len() {
            lemma_take_is_occurrence(name, pb_ext());
        }
        if 3 <= name.len() && name.take(3) == pb_ext() {
            law_svg_name_length(name.skip(3));
            assert(occurs_at(name, pb_ext(), 0));
        } else {
            let t = name.skip(1);
            law_svg_name_length(t);
            assert(svg_name_of(name) == seq![name[0]] + svg_name_of(t));
            if svg_name_of(name).len() == name.len() {
                assert forall|i: int| !#[trigger] occurs_at(name, pb_ext(), i) by {
                    if occurs_at(name, pb_ext(), i) && i > 0 {
                        assert(t.subrange(i - 1, i + 2) =~= name.subrange(i, i + 3));
                        assert(occurs_at(t, pb_ext(), i - 1));
                    }
                }
            } else {
                let j = choose|j: int| occurs_at(t, pb_ext(), j);
                assert(name.subrange(j + 1, j + 4) =~= t.subrange(j, j + 3));
                assert(occurs_at(name, pb_ext(), j + 1));
            }
        }
    }
}

/// Naming a flamegraph twice gives the same name as naming it once.
pub proof fn law_svg_name_idempotent(name: Seq<char>)
    ensures
        svg_name_of(svg_name_of(name)) == svg_name_of(name),
{
    law_svg_name_has_no_pb(name);
    law_replace_without_match(svg_name_of(name), pb_ext(), svg_ext());
}

/// `String::push`: appends the character `c` to `s`.
#[verifier::external_body]
fn push_char(s: &mut String, c: char)
    ensures
        final(s)@ == old(s)@.push(c),
{
    s.push(c);
}

/// The characters of `s`, in order.
fn chars_of(s: &str) -> (res: Vec<char>)
    ensures
        res@ == s@,
{
    broadcast use vstd::string::group_string_axioms;

    let mut res: Vec<char> = Vec::new();
    for c in it: s.chars()
        invariant
            res@ == it.history(),
    {
        res.push(c);
    }
    res
}

/// The name of the flamegraph that goes with a profile written to `name`:
/// `name` with each ".pb" replaced by ".svg".
pub fn svg_name(name: &str) -> (res: String)
    ensures
        res@ == svg_name_of(name@),
        (forall|i: int| !#[trigger] occurs_at(name@, pb_ext(), i)) ==> res@ == name@,
        res@.len() >= name@.len(),
{
    proof {
        law_svg_name_length(name@);
        if forall|i: int| !#[trigger] occurs_at(name@, pb_ext(), i) {
            law_svg_name_keeps_plain_names(name@);
        }
    }
    let cs = chars_of(name);
    let n = cs.len();
    let mut out = String::new();
    let mut i: usize = 0;
    proof {
        assert(cs@.skip(0) =~= cs@);
    }
    while i < n
        invariant
            n == cs@.len(),
            i <= n,
            svg_name_of(cs@) == out@ + svg_name_of(cs@.skip(i as int)),
        decreases n - i,
    {
        let ghost rest = cs@.skip(i as int);
        if n - i >= 3 && cs[i] == '.' && cs[i + 1] == 'p' && cs[i + 2] == 'b' {
            proof {
                assert(rest.take(3) =~= pb_ext());
                assert(rest.skip(3) =~= cs@.skip(i + 3));
            }
            let ghost before = out@;
            push_char(&mut out, '.');
            push_char(&mut out, 's');
            push_char(&mut out, 'v');
            push_char(&mut out, 'g');
            proof {
                assert(out@ =~= before + svg_ext());
            }
            i = i + 3;
        } else {
            proof {
                if 3 <= rest.len() {
                    assert(rest.take(3) != pb_ext()) by {
                        if rest.take(3) == pb_ext() {
                            assert(rest.take(3)[0] == cs@[i as int]);
                            assert(rest.take(3)[1] == cs@[i + 1]);
                            assert(rest.take(3)[2] == cs@[i + 2]);
                        }
                    }
                }
                assert(rest.skip(1) =~= cs@.skip(i + 1));
            }
            push_char(&mut out, cs[i]);
            i = i + 1;
        }
    }
    proof {
        assert(cs@.skip(n as int) =~= Seq::<char>::empty());
    }
    out
}

} // verus!
