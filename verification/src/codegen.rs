//! Writing the protocol's notification constants from its meta model.

use vstd::prelude::*;
use crate::generator::{doc_comment, Generator};
use crate::spec::{Notification, Spec};
use crate::text::push_char;

verus! {

/// An ASCII lower-case letter.
pub open spec fn is_lower(c: char) -> bool {
    'a' <= c <= 'z'
}

/// An ASCII upper-case letter.
pub open spec fn is_upper(c: char) -> bool {
    'A' <= c <= 'Z'
}

/// The upper-case form of an ASCII lower-case letter.
pub open spec fn to_upper(c: char) -> char {
    (c as int - 32) as char
}

/// The name built so far from `method`, and whether the next lower-case
/// letter is to be capitalised. Lower-case letters are kept, the first after
/// a word boundary in upper case; upper-case letters are kept as they are
/// (and do not end the word boundary); every other character is dropped and
/// marks a word boundary.
pub open spec fn name_state(method: Seq<char>) -> (Seq<char>, bool)
    decreases method.len(),
{
    if method.len() == 0 {
        (seq![], true)
    } else {
        let (name, capitalize) = name_state(method.drop_last());
        let c = method.last();
        if is_lower(c) && capitalize {
            (name.push(to_upper(c)), false)
        } else if is_lower(c) {
            (name.push(c), capitalize)
        } else if is_upper(c) {
            (name.push(c), capitalize)
        } else {
            (name, true)
        }
    }
}

/// The Rust name of a protocol method: `textDocument/publishDiagnostics`
/// becomes `TextDocumentPublishDiagnostics`.
pub open spec fn rpc_name(method: Seq<char>) -> Seq<char> {
    name_state(method).0
}

/// The Rust name of a protocol method, as `rpc_name` says.
pub fn notification_name(method: &str) -> (name: String)
    ensures
        name@ == rpc_name(method@),
{
    broadcast use vstd::string::group_string_axioms;

    let ghost m = method@;
    let mut name = String::new();
    let mut capitalize = true;
    let mut chars = method.chars();
    let ghost mut k: int = 0;
    loop
        invariant
            0 <= k <= m.len(),
            vstd::std_specs::iter::IteratorSpec::remaining(&chars) == m.skip(k),
            (name@, capitalize) == name_state(m.take(k)),
        ensures
            k == m.len(),
            (name@, capitalize) == name_state(m.take(k)),
        decreases m.len() - k,
    {
        match chars.next() {
            None => {
                break ;
            },
            Some(c) => {
                assert(c == m[k]);
                assert(m.take(k + 1).drop_last() =~= m.take(k));
                if 'a' <= c && c <= 'z' && capitalize {
                    push_char(&mut name, ((c as u8) - 32) as char);
                    capitalize = false;
                } else if 'a' <= c && c <= 'z' {
                    push_char(&mut name, c);
                } else if 'A' <= c && c <= 'Z' {
                    push_char(&mut name, c);
                } else {
                    capitalize = true;
                }
                proof {
                    k = k + 1;
                }
            },
        }
    }
    assert(m.take(k) =~= m);
    name
}

/// An ASCII letter.
pub open spec fn is_letter(c: char) -> bool {
    is_lower(c) || is_upper(c)
}

/// The lower-case form of an ASCII letter; other characters stay.
pub open spec fn to_lower(c: char) -> char {
    if is_upper(c) {
        (c as int + 32) as char
    } else {
        c
    }
}

/// `s` with its ASCII letters in lower case.
pub open spec fn lowered(s: Seq<char>) -> Seq<char> {
    s.map_values(|c: char| to_lower(c))
}

/// The ASCII letters of `s`, in order.
pub open spec fn letters(s: Seq<char>) -> Seq<char>
    decreases s.len(),
{
    if s.len() == 0 {
        seq![]
    } else if is_letter(s.last()) {
        letters(s.drop_last()).push(s.last())
    } else {
        letters(s.drop_last())
    }
}

/// The Rust name of a method is made of ASCII letters only, starts with an
/// upper-case one, and spells the method's letters in order, up to case.
pub proof fn lemma_rpc_name_shape(method: Seq<char>)
    ensures
        forall|i: int| 0 <= i < rpc_name(method).len() ==> is_letter(#[trigger] rpc_name(method)[i]),
        lowered(rpc_name(method)) == lowered(letters(method)),
        rpc_name(method).len() > 0 ==> is_upper(rpc_name(method)[0]),
        rpc_name(method).len() == 0 ==> name_state(method).1,
    decreases method.len(),
{
    if method.len() > 0 {
        let d = method.drop_last();
        lemma_rpc_name_shape(d);
        let name = rpc_name(d);
        let c = method.last();
        let new_name = rpc_name(method);
        if is_lower(c) && name_state(d).1 {
            assert(to_lower(to_upper(c)) == c);
        }
        if is_letter(c) {
            assert(lowered(new_name) =~= lowered(name).push(to_lower(c)));
            assert(lowered(letters(method)) =~= lowered(letters(d)).push(to_lower(c)));
        } else {
            assert(lowered(letters(method)) =~= lowered(letters(d)));
        }
        if name.len() > 0 {
            assert(new_name[0] == name[0]);
        }
    }
}

/// The state after `a + y` depends on `a` only through the state after `a`.
proof fn lemma_name_state_congruent(a1: Seq<char>, a2: Seq<char>, y: Seq<char>)
    requires
        name_state(a1) == name_state(a2),
    ensures
        name_state(a1 + y) == name_state(a2 + y),
    decreases y.len(),
{
    if y.len() == 0 {
        assert(a1 + y =~= a1);
        assert(a2 + y =~= a2);
    } else {
        lemma_name_state_congruent(a1, a2, y.drop_last());
        assert((a1 + y).drop_last() =~= a1 + y.drop_last());
        assert((a2 + y).drop_last() =~= a2 + y.drop_last());
    }
}

/// A character that is not an ASCII letter only marks a word boundary: which
/// one it is does not matter, nor does a second one beside it, nor one at
/// either end of the method.
pub proof fn lemma_rpc_name_boundaries(x: Seq<char>, y: Seq<char>, c1: char, c2: char)
    requires
        !is_letter(c1),
        !is_letter(c2),
    ensures
        rpc_name(x + seq![c1] + y) == rpc_name(x + seq![c2] + y),
        rpc_name(x + seq![c1] + y) == rpc_name(x + seq![c1, c2] + y),
        rpc_name(seq![c1] + y) == rpc_name(y),
        rpc_name(x + seq![c1]) == rpc_name(x),
{
    let n = name_state(x).0;
    assert((x + seq![c1]).drop_last() =~= x);
    assert((x + seq![c2]).drop_last() =~= x);
    assert((x + seq![c1, c2]).drop_last() =~= x + seq![c1]);
    assert(name_state(x + seq![c1]) == (n, true));
    assert(name_state(x + seq![c2]) == (n, true));
    assert(name_state(x + seq![c1, c2]) == (n, true));
    lemma_name_state_congruent(x + seq![c1], x + seq![c2], y);
    lemma_name_state_congruent(x + seq![c1], x + seq![c1, c2], y);
    assert(seq![c1].drop_last() =~= Seq::<char>::empty());
    assert(name_state(seq![c1]) == name_state(Seq::<char>::empty()));
    lemma_name_state_congruent(seq![c1], Seq::<char>::empty(), y);
    assert(Seq::<char>::empty() + y =~= y);
}

/// The constant for a notification: `pub const NAME: &str = "method";`.
pub open spec fn notification_const(method: Seq<char>) -> Seq<char> {
    "pub const "@ + rpc_name(method) + ": &str = \""@ + method + "\";"@
}

/// What is written for one notification: its documentation as a doc
/// comment, then its constant on a line of its own.
pub open spec fn notification_block(n: Notification) -> Seq<char> {
    doc_comment(n.documentation@) + notification_const(n.method@) + seq!['\n']
}

/// What is written for the notifications, in order.
pub open spec fn notification_blocks(ns: Seq<Notification>) -> Seq<char>
    decreases ns.len(),
{
    if ns.len() == 0 {
        seq![]
    } else {
        notification_blocks(ns.drop_last()) + notification_block(ns.last())
    }
}

/// The head of the notifications module: its doc line and an empty line.
pub open spec fn notifications_head() -> Seq<char> {
    "//! LSP Notifications."@ + seq!['\n'] + ""@ + seq!['\n']
}

/// Writes the notifications module: its head, then for each notification
/// its documentation and its constant.
pub fn generate_notifications(g: &mut Generator, notifications: &[Notification])
    ensures
        final(g).text() == old(g).text() + notifications_head() + notification_blocks(
            notifications@,
        ),
        final(g).file() == old(g).file(),
{
    g.write("//! LSP Notifications.");
    g.write("");
    let ghost start = g.text();
    let ghost ns = notifications@;
    let mut i: usize = 0;
    assert(ns.take(0) =~= Seq::<Notification>::empty());
    while i < notifications.len()
        invariant
            i <= ns.len(),
            ns == notifications@,
            g.text() == start + notification_blocks(ns.take(i as int)),
            g.file() == old(g).file(),
        decreases ns.len() - i,
    {
        let n = &notifications[i];
        g.write_doc(n.documentation.as_str());
        let name = notification_name(n.method.as_str());
        let mut line = String::from_str("pub const ");
        line.append(name.as_str());
        line.append(": &str = \"");
        line.append(n.method.as_str());
        line.append("\";");
        g.write(line.as_str());
        assert(ns.take(i + 1).drop_last() =~= ns.take(i as int));
        i = i + 1;
        assert(g.text() =~= start + notification_blocks(ns.take(i as int)));
    }
    assert(ns.take(i as int) =~= ns);
    assert(g.text() =~= old(g).text() + notifications_head() + notification_blocks(ns));
}

/// The files the generator writes for the meta model `spec`: the
/// notifications module `src/notification.rs`, and `src/lib.rs` declaring it.
pub fn generate(spec: &Spec) -> (files: (Generator, Generator))
    ensures
        files.0.file() == "src/notification.rs"@,
        files.0.text() == notifications_head() + notification_blocks(spec.notifications@),
        files.1.file() == "src/lib.rs"@,
        files.1.text() == "pub mod notification;"@ + seq!['\n'],
{
    let mut notifications = Generator::new("src/notification.rs");
    generate_notifications(&mut notifications, spec.notifications.as_slice());
    let mut lib = Generator::new("src/lib.rs");
    lib.write("pub mod notification;");
    assert(notifications.text() =~= notifications_head() + notification_blocks(
        spec.notifications@,
    ));
    assert(lib.text() =~= "pub mod notification;"@ + seq!['\n']);
    (notifications, lib)
}

} // verus!
