//! The shell hook that re-applies the saved theme in new shells, and how it
//! is put into a shell profile. Reading and writing the profile file is the
//! application's part.
use vstd::prelude::*;

use crate::text::{
    chars_of, extend_chars, find, find_chars, find_from, occurs_at, string_of, sub_chars, trim_end,
    trim_end_len,
};

verus! {

/// First line of the managed block in a shell profile.
pub const START_MARKER: &'static str = "# switch-theme start";

/// Last line of the managed block in a shell profile.
pub const END_MARKER: &'static str = "# switch-theme end";

/// The command that re-applies the saved theme, silently, when the
/// program is installed.
pub const HOOK_COMMAND: &'static str = "command -v switch-theme >/dev/null 2>&1 && switch-theme apply >/dev/null 2>&1";

/// The managed block: start marker, hook command, end marker, one per line.
pub open spec fn hook_block_spec() -> Seq<char> {
    START_MARKER@ + seq!['\n'] + HOOK_COMMAND@ + seq!['\n'] + END_MARKER@
}

/// `trim_start_matches(['\r', '\n'])`: drops leading line breaks.
pub open spec fn trim_line_breaks(s: Seq<char>) -> Seq<char>
    decreases s.len(),
{
    if s.len() > 0 && (s[0] == '\r' || s[0] == '\n') {
        trim_line_breaks(s.drop_first())
    } else {
        s
    }
}

/// The text before the block: empty, or the given text and a blank line.
pub open spec fn before_block(head: Seq<char>) -> Seq<char> {
    if head.len() == 0 {
        Seq::empty()
    } else {
        head + seq!['\n', '\n']
    }
}

/// The text after the block: a blank line and the given text, or a final
/// line break when there is no text.
pub open spec fn after_block(tail: Seq<char>) -> Seq<char> {
    if tail.len() > 0 {
        seq!['\n', '\n'] + tail
    } else {
        seq!['\n']
    }
}

/// The profile with the block put at its end.
pub open spec fn appended_spec(contents: Seq<char>) -> Seq<char> {
    before_block(trim_end(contents)) + hook_block_spec() + seq!['\n']
}

/// The profile with the text from `start` to `end` replaced by the block.
pub open spec fn replaced_spec(contents: Seq<char>, start: int, end: int) -> Seq<char> {
    before_block(trim_end(contents.take(start))) + hook_block_spec() + after_block(
        trim_line_breaks(contents.skip(end)),
    )
}

/// `upsert_hook`: when the profile holds a start marker with an end marker
/// after it, the first such block is replaced (surrounding blank lines
/// normalized); otherwise the block is appended after a blank line.
pub open spec fn upsert_spec(contents: Seq<char>) -> Seq<char> {
    match find(contents, START_MARKER@) {
        Some(start) => match find(contents.skip(start), END_MARKER@) {
            Some(offset) => replaced_spec(contents, start, start + offset + END_MARKER@.len()),
            None => appended_spec(contents),
        },
        None => appended_spec(contents),
    }
}

/// The shell snippet that re-applies the saved theme.
pub fn init_snippet() -> (r: String)
    ensures
        r@ == HOOK_COMMAND@,
{
    String::from_str(HOOK_COMMAND)
}

/// The managed block as characters.
fn hook_block() -> (r: Vec<char>)
    ensures
        r@ == hook_block_spec(),
{
    let mut out = chars_of(START_MARKER);
    out.push('\n');
    extend_chars(&mut out, &chars_of(HOOK_COMMAND));
    out.push('\n');
    extend_chars(&mut out, &chars_of(END_MARKER));
    out
}

/// The index of the first character of `v` that is not a line break.
fn skip_line_breaks(v: &Vec<char>) -> (k: usize)
    ensures
        k <= v.len(),
        v@.skip(k as int) == trim_line_breaks(v@),
{
    let mut k: usize = 0;
    assert(v@.skip(0) =~= v@);
    while k < v.len() && (v[k] == '\r' || v[k] == '\n')
        invariant
            k <= v.len(),
            trim_line_breaks(v@.skip(k as int)) == trim_line_breaks(v@),
        decreases v.len() - k,
    {
        assert(v@.skip(k as int).drop_first() =~= v@.skip(k + 1));
        k = k + 1;
    }
    k
}

/// Puts the managed hook block into a shell profile's text: replaces the
/// first existing block, or appends one after a blank line.
pub fn upsert_hook(contents: &str) -> (r: String)
    ensures
        r@ == upsert_spec(contents@),
{
    let c = chars_of(contents);
    let hook = hook_block();
    let start_marker = chars_of(START_MARKER);
    let end_marker = chars_of(END_MARKER);
    proof {
        crate::text::lemma_find_some(c@, start_marker@, 0);
        crate::text::lemma_trim_end_is_prefix(c@);
    }
    if let Some(start) = find_chars(&c, &start_marker) {
        let rest = sub_chars(&c, start, c.len());
        assert(rest@ =~= c@.skip(start as int));
        if let Some(end_offset) = find_chars(&rest, &end_marker) {
            proof {
                crate::text::lemma_find_some(rest@, end_marker@, 0);
            }
            let end = start + end_offset + end_marker.len();
            let head_src = sub_chars(&c, 0, start);
            let n = trim_end_len(&head_src);
            proof {
                crate::text::lemma_trim_end_is_prefix(head_src@);
                assert(head_src@ =~= c@.take(start as int));
            }
            let mut updated = sub_chars(&head_src, 0, n);
            if updated.len() > 0 {
                updated.push('\n');
                updated.push('\n');
            }
            extend_chars(&mut updated, &hook);
            let tail_src = sub_chars(&c, end, c.len());
            let k = skip_line_breaks(&tail_src);
            let tail = sub_chars(&tail_src, k, tail_src.len());
            assert(tail@ =~= tail_src@.skip(k as int));
            assert(tail_src@ =~= c@.skip(end as int));
            if tail.len() > 0 {
                updated.push('\n');
                updated.push('\n');
                extend_chars(&mut updated, &tail);
            } else {
                updated.push('\n');
            }
            proof {
                let h = trim_end(c@.take(start as int));
                let t = trim_line_breaks(c@.skip(end as int));
                assert(updated@ =~= before_block(h) + hook_block_spec() + after_block(t));
            }
            return string_of(&updated);
        }
    }
    let n = trim_end_len(&c);
    let mut updated = sub_chars(&c, 0, n);
    proof {
        crate::text::lemma_trim_end_is_prefix(c@);
    }
    if updated.len() > 0 {
        updated.push('\n');
        updated.push('\n');
    }
    extend_chars(&mut updated, &hook);
    updated.push('\n');
    assert(updated@ =~= appended_spec(c@));
    string_of(&updated)
}


// ---------------------------------------------------------------------------
// Idempotence
// ---------------------------------------------------------------------------
/// The characters of the markers and the hook command that the proofs use.
proof fn lemma_marker_chars()
    ensures
        START_MARKER@.len() == 20,
        END_MARKER@.len() == 18,
        forall|i: int| 0 <= i < 20 ==> #[trigger] START_MARKER@[i] != '\n',
        START_MARKER@[0] == '#',
        START_MARKER@[1] == ' ',
        START_MARKER@[2] == 's',
        START_MARKER@[15] == 's',
        END_MARKER@[0] == '#',
        END_MARKER@[15] == 'e',
        forall|i: int| 0 <= i < 18 ==> #[trigger] END_MARKER@[i] != '\n',
        forall|i: int|
            0 <= i < HOOK_COMMAND@.len() ==> #[trigger] HOOK_COMMAND@[i] != '\n'
                && HOOK_COMMAND@[i] != '#',
{
    reveal_strlit("# switch-theme start");
    reveal_strlit("# switch-theme end");
    reveal_strlit(
        "command -v switch-theme >/dev/null 2>&1 && switch-theme apply >/dev/null 2>&1",
    );
}

/// Inside an occurrence, the text holds the pattern's characters.
proof fn lemma_occurrence_char(s: Seq<char>, pat: Seq<char>, i: int, k: int)
    requires
        occurs_at(s, pat, i),
        i <= k < i + pat.len(),
    ensures
        s[k] == pat[k - i],
{
    assert(s.subrange(i, i + pat.len())[k - i] == s[k]);
}

/// Trimming the end of a trimmed text changes nothing.
proof fn lemma_trim_end_idempotent(s: Seq<char>)
    ensures
        trim_end(trim_end(s)) == trim_end(s),
{
    crate::text::lemma_trim_end_is_prefix(s);
}

/// Dropping leading line breaks twice is the same as once.
proof fn lemma_trim_line_breaks_shape(s: Seq<char>)
    ensures
        trim_line_breaks(s).len() > 0 ==> trim_line_breaks(s)[0] != '\r' && trim_line_breaks(s)[0]
            != '\n',
        trim_line_breaks(trim_line_breaks(s)) == trim_line_breaks(s),
    decreases s.len(),
{
    if s.len() > 0 && (s[0] == '\r' || s[0] == '\n') {
        lemma_trim_line_breaks_shape(s.drop_first());
    }
}

/// No start marker begins before the block in a profile of the shape that
/// [`upsert_hook`] writes.
proof fn lemma_no_start_before_block(head: Seq<char>, post: Seq<char>, i: int)
    requires
        forall|j: int| 0 <= j && j + 20 <= head.len() ==> !#[trigger] occurs_at(
            head,
            START_MARKER@,
            j,
        ),
        0 <= i < before_block(head).len(),
    ensures
        !occurs_at(before_block(head) + hook_block_spec() + post, START_MARKER@, i),
{
    lemma_marker_chars();
    let start = START_MARKER@;
    let pre = before_block(head);
    let o = pre + hook_block_spec() + post;
    if occurs_at(o, start, i) {
        if i + 20 <= head.len() {
            assert forall|j: int| 0 <= j < 20 implies #[trigger] head.subrange(i, i + 20)[j] == o.subrange(
                i,
                i + 20,
            )[j] by {
                assert(o[i + j] == pre[i + j]);
                assert(pre[i + j] == head[i + j]);
            }
            assert(head.subrange(i, i + 20) =~= o.subrange(i, i + 20));
            assert(occurs_at(head, start, i));
        } else {
            let k = if i < head.len() {
                head.len() as int
            } else {
                i
            };
            lemma_occurrence_char(o, start, i, k);
            assert(o[k] == pre[k]);
        }
    }
}

/// In a profile of the shape that [`upsert_hook`] writes, the first start
/// marker is the block's.
proof fn lemma_first_start(head: Seq<char>, post: Seq<char>)
    requires
        forall|i: int| 0 <= i && i + 20 <= head.len() ==> !#[trigger] occurs_at(
            head,
            START_MARKER@,
            i,
        ),
    ensures
        find(before_block(head) + hook_block_spec() + post, START_MARKER@) == Some(
            before_block(head).len() as int,
        ),
{
    lemma_marker_chars();
    let start = START_MARKER@;
    let pre = before_block(head);
    let o = pre + hook_block_spec() + post;
    let p = pre.len() as int;
    assert forall|j: int| 0 <= j < 20 implies #[trigger] o.subrange(p, p + 20)[j] == start[j] by {
        assert(o[p + j] == hook_block_spec()[j]);
    }
    assert(o.subrange(p, p + 20) =~= start);
    assert forall|i: int| 0 <= i < p implies !#[trigger] occurs_at(o, start, i) by {
        lemma_no_start_before_block(head, post, i);
    }
    crate::text::lemma_find_first(o, start, 0, p);
}

/// After the block's start, the first end marker is the block's.
proof fn lemma_first_end(post: Seq<char>)
    ensures
        find(hook_block_spec() + post, END_MARKER@) == Some(22 + HOOK_COMMAND@.len() as int),
{
    lemma_marker_chars();
    let end = END_MARKER@;
    let cmd = HOOK_COMMAND@;
    let l = cmd.len() as int;
    let rest = hook_block_spec() + post;
    let e = 22 + l;
    assert(rest.subrange(e, e + 18) =~= end);
    assert forall|i: int| 0 <= i < e implies !#[trigger] occurs_at(rest, end, i) by {
        if occurs_at(rest, end, i) {
            if i <= 20 && i + 18 > 20 {
                lemma_occurrence_char(rest, end, i, 20);
            } else if i + 18 <= 20 {
                if i == 0 {
                    lemma_occurrence_char(rest, end, i, 15);
                } else {
                    lemma_occurrence_char(rest, end, i, i);
                }
            } else if i < 21 + l {
                lemma_occurrence_char(rest, end, i, i);
                assert(rest[i] == cmd[i - 21]);
            } else {
                lemma_occurrence_char(rest, end, i, i);
            }
        }
    }
    crate::text::lemma_find_first(rest, end, 0, e);
}

/// Replacing the block of such a profile by the block gives it back.
proof fn lemma_replace_same(head: Seq<char>, tail: Seq<char>)
    requires
        trim_end(head) == head,
        trim_line_breaks(tail) == tail,
    ensures
        ({
            let o = before_block(head) + hook_block_spec() + after_block(tail);
            let p = before_block(head).len() as int;
            replaced_spec(o, p, p + hook_block_spec().len()) == o
        }),
{
    let pre = before_block(head);
    let h = hook_block_spec();
    let post = after_block(tail);
    let o = pre + h + post;
    let p = pre.len() as int;
    reveal_with_fuel(trim_end, 3);
    reveal_with_fuel(trim_line_breaks, 3);
    assert(o.take(p) =~= pre);
    assert(o.skip(p + h.len()) =~= post);
    if head.len() > 0 {
        assert(pre.drop_last() =~= head + seq!['\n']);
        assert((head + seq!['\n']).drop_last() =~= head);
        assert(trim_end(pre) == head);
    }
    if tail.len() > 0 {
        assert(post.drop_first() =~= seq!['\n'] + tail);
        assert((seq!['\n'] + tail).drop_first() =~= tail);
    } else {
        assert(post.drop_first() =~= Seq::<char>::empty());
    }
}

/// A profile already in the shape that [`upsert_hook`] writes is left as is.
proof fn lemma_upsert_fixed(head: Seq<char>, tail: Seq<char>)
    requires
        trim_end(head) == head,
        trim_line_breaks(tail) == tail,
        forall|i: int| 0 <= i && i + 20 <= head.len() ==> !#[trigger] occurs_at(
            head,
            START_MARKER@,
            i,
        ),
    ensures
        upsert_spec(before_block(head) + hook_block_spec() + after_block(tail)) == before_block(head)
            + hook_block_spec() + after_block(tail),
{
    lemma_marker_chars();
    let pre = before_block(head);
    let h = hook_block_spec();
    let post = after_block(tail);
    let o = pre + h + post;
    let p = pre.len() as int;
    lemma_first_start(head, post);
    assert(o.skip(p) =~= h + post);
    lemma_first_end(post);
    assert(h.len() == 40 + HOOK_COMMAND@.len());
    lemma_replace_same(head, tail);
}

/// Putting the hook into a profile twice gives the same text as putting it
/// in once, for every profile whose first start marker (if any) is followed
/// by an end marker.
pub proof fn law_upsert_hook_idempotent(contents: Seq<char>)
    requires
        find(contents, START_MARKER@) matches Some(start) ==> find(
            contents.skip(start),
            END_MARKER@,
        ) is Some,
    ensures
        upsert_spec(upsert_spec(contents)) == upsert_spec(contents),
{
    lemma_marker_chars();
    crate::text::lemma_find_some(contents, START_MARKER@, 0);
    match find(contents, START_MARKER@) {
        Some(start) => {
            let offset = find(contents.skip(start), END_MARKER@)->0;
            crate::text::lemma_find_some(contents.skip(start), END_MARKER@, 0);
            let end = start + offset + 18;
            let x = contents.take(start);
            let head = trim_end(x);
            let tail = trim_line_breaks(contents.skip(end));
            lemma_trim_end_idempotent(x);
            lemma_trim_line_breaks_shape(contents.skip(end));
            crate::text::lemma_trim_end_is_prefix(x);
            assert forall|i: int| 0 <= i && i + 20 <= head.len() implies !#[trigger] occurs_at(
                head,
                START_MARKER@,
                i,
            ) by {
                if occurs_at(head, START_MARKER@, i) {
                    assert(contents.subrange(i, i + 20) =~= head.subrange(i, i + 20));
                    assert(occurs_at(contents, START_MARKER@, i));
                }
            }
            lemma_upsert_fixed(head, tail);
        },
        None => {
            let head = trim_end(contents);
            lemma_trim_end_idempotent(contents);
            crate::text::lemma_trim_end_is_prefix(contents);
            assert forall|i: int| 0 <= i && i + 20 <= head.len() implies !#[trigger] occurs_at(
                head,
                START_MARKER@,
                i,
            ) by {
                if occurs_at(head, START_MARKER@, i) {
                    assert(contents.subrange(i, i + 20) =~= head.subrange(i, i + 20));
                    assert(occurs_at(contents, START_MARKER@, i));
                }
            }
            assert(trim_line_breaks(Seq::<char>::empty()) == Seq::<char>::empty());
            assert(after_block(Seq::<char>::empty()) == seq!['\n']);
            lemma_upsert_fixed(head, Seq::empty());
        },
    }
}

/// A profile after [`upsert_hook`] holds the managed block.
pub proof fn law_upsert_installs_hook(contents: Seq<char>)
    ensures
        exists|k: int| #[trigger] occurs_at(upsert_spec(contents), hook_block_spec(), k),
{
    let h = hook_block_spec();
    let appended_pre = before_block(trim_end(contents));
    let o = upsert_spec(contents);
    match find(contents, START_MARKER@) {
        Some(start) => match find(contents.skip(start), END_MARKER@) {
            Some(offset) => {
                let end = start + offset + END_MARKER@.len();
                let pre = before_block(trim_end(contents.take(start)));
                let post = after_block(trim_line_breaks(contents.skip(end)));
                assert(o == pre + h + post);
                assert(o.subrange(pre.len() as int, (pre.len() + h.len()) as int) =~= h);
                assert(occurs_at(o, h, pre.len() as int));
            },
            None => {
                assert(o == appended_pre + h + seq!['\n']);
                assert(o.subrange(appended_pre.len() as int, (appended_pre.len() + h.len()) as int) =~= h);
                assert(occurs_at(o, h, appended_pre.len() as int));
            },
        },
        None => {
            assert(o == appended_pre + h + seq!['\n']);
            assert(o.subrange(appended_pre.len() as int, (appended_pre.len() + h.len()) as int) =~= h);
            assert(occurs_at(o, h, appended_pre.len() as int));
        },
    }
}

} // verus!
