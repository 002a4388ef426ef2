use vstd::prelude::*;
use vstd::string::*;

use crate::errors::IdentityFailure;

verus! {

// The mount-record text exposed by the kernel holds one mount record per
// line. A record of the calling container carries one of two markers: the
// container-runtime marker (a path of the form
// `/var/lib/docker/containers/{id}/{file}`) or the orchestrator-pod marker
// (`/var/lib/kubelet/pods/{id}/{file}`). The identifier is the first path
// component after the marker.

/// The substring that marks a container-runtime mount record.
pub open spec fn spec_docker_marker() -> Seq<char> {
    "/docker/containers/"@
}

/// The substring that marks an orchestrator-pod mount record.
pub open spec fn spec_k8s_marker() -> Seq<char> {
    "/kubelet/pods/"@
}

/// `pat` occurs in `text` starting at index `i`.
pub open spec fn spec_match_at(text: Seq<char>, pat: Seq<char>, i: int) -> bool {
    &&& 0 <= i
    &&& i + pat.len() <= text.len()
    &&& forall|k: int| 0 <= k < pat.len() ==> text[i + k] == pat[k]
}

/// The start of the last occurrence of `pat` in `text` at or below index `j`,
/// or -1 when there is none.
pub open spec fn spec_rfind_from(text: Seq<char>, pat: Seq<char>, j: int) -> int
    decreases j + 1,
{
    if j < 0 {
        -1
    } else if spec_match_at(text, pat, j) {
        j
    } else {
        spec_rfind_from(text, pat, j - 1)
    }
}

/// `text` contains `pat` somewhere.
pub open spec fn spec_contains_pat(text: Seq<char>, pat: Seq<char>) -> bool {
    spec_rfind_from(text, pat, text.len() as int - pat.len() as int) >= 0
}

/// The index of the first occurrence of `c` in `s` at or after `i`, or
/// `s.len()` when there is none.
pub open spec fn spec_find_char_from(s: Seq<char>, c: char, i: int) -> int
    decreases s.len() - i,
{
    if i < 0 || i >= s.len() {
        s.len() as int
    } else if s[i] == c {
        i
    } else {
        spec_find_char_from(s, c, i + 1)
    }
}

/// A mount record that carries either marker.
pub open spec fn spec_line_matches(line: Seq<char>) -> bool {
    spec_contains_pat(line, spec_docker_marker()) || spec_contains_pat(line, spec_k8s_marker())
}

/// The marker that decides a matching record; the container-runtime marker is
/// preferred when a record carries both.
pub open spec fn spec_line_marker(line: Seq<char>) -> Seq<char> {
    if spec_contains_pat(line, spec_docker_marker()) {
        spec_docker_marker()
    } else {
        spec_k8s_marker()
    }
}

/// The index just past the last occurrence of the deciding marker.
pub open spec fn spec_marker_end(line: Seq<char>) -> int
    recommends
        spec_line_matches(line),
{
    let pat = spec_line_marker(line);
    spec_rfind_from(line, pat, line.len() as int - pat.len() as int) + pat.len() as int
}

/// The identifier a matching record yields: the first path component of the
/// segment after the last occurrence of the deciding marker.
pub open spec fn spec_extracted_id(line: Seq<char>) -> Seq<char>
    recommends
        spec_line_matches(line),
{
    let seg = line.subrange(spec_marker_end(line), line.len() as int);
    seg.take(spec_find_char_from(seg, '/', 0))
}

/// What a matching record resolves to: its identifier, or the malformed
/// error when the marker is followed by an empty component.
pub open spec fn spec_examine_line(line: Seq<char>) -> Result<Seq<char>, IdentityFailure>
    recommends
        spec_line_matches(line),
{
    if spec_extracted_id(line).len() == 0 {
        Err(IdentityFailure::Malformed)
    } else {
        Ok(spec_extracted_id(line))
    }
}

/// The text split at newlines; a text without a newline is one record.
pub open spec fn spec_lines(text: Seq<char>) -> Seq<Seq<char>>
    decreases text.len(),
{
    let nl = spec_find_char_from(text, '\n', 0);
    if 0 <= nl < text.len() {
        seq![text.take(nl)] + spec_lines(text.skip(nl + 1))
    } else {
        seq![text]
    }
}

/// Resolution over the records in order: the first record that carries a
/// marker decides the outcome; records after it play no part.
pub open spec fn spec_resolve_lines(lines: Seq<Seq<char>>) -> Result<Seq<char>, IdentityFailure>
    decreases lines.len(),
{
    if lines.len() == 0 {
        Err(IdentityFailure::NotFound)
    } else if spec_line_matches(lines[0]) {
        spec_examine_line(lines[0])
    } else {
        spec_resolve_lines(lines.drop_first())
    }
}

/// What identity resolution yields on the full mount-record text.
pub open spec fn spec_resolve(text: Seq<char>) -> Result<Seq<char>, IdentityFailure> {
    spec_resolve_lines(spec_lines(text))
}

/// Resolution never yields an empty identifier: a record that carries a
/// marker yields either a non-empty identifier or the malformed error, and
/// a text without a matching record yields the not-found error.
pub proof fn lemma_resolved_lines_id_nonempty(lines: Seq<Seq<char>>)
    ensures
        spec_resolve_lines(lines) matches Ok(id) ==> id.len() > 0,
    decreases lines.len(),
{
    if lines.len() == 0 {
    } else if spec_line_matches(lines[0]) {
    } else {
        lemma_resolved_lines_id_nonempty(lines.drop_first());
    }
}

/// Resolution of a mount-record text never yields an empty identifier.
pub proof fn lemma_resolved_id_nonempty(text: Seq<char>)
    ensures
        spec_resolve(text) matches Ok(id) ==> id.len() > 0,
{
    lemma_resolved_lines_id_nonempty(spec_lines(text));
}

/// Resolution reports "not found" exactly when no record carries either
/// marker; in particular a matching record never degrades to "not found".
pub proof fn lemma_not_found_iff_no_marker(lines: Seq<Seq<char>>)
    ensures
        spec_resolve_lines(lines) == Err::<Seq<char>, IdentityFailure>(IdentityFailure::NotFound)
            <==> (forall|j: int| 0 <= j < lines.len() ==> !spec_line_matches(lines[j])),
    decreases lines.len(),
{
    if lines.len() == 0 {
    } else if spec_line_matches(lines[0]) {
        assert(!(forall|j: int| 0 <= j < lines.len() ==> !spec_line_matches(lines[j]))) by {
            assert(spec_line_matches(lines[0]));
        }
    } else {
        let rest = lines.drop_first();
        lemma_not_found_iff_no_marker(rest);
        assert(spec_resolve_lines(lines) == spec_resolve_lines(rest));
        if forall|j: int| 0 <= j < rest.len() ==> !spec_line_matches(rest[j]) {
            assert forall|j: int| 0 <= j < lines.len() implies !spec_line_matches(
                lines[j],
            ) by {
                if j > 0 {
                    assert(rest[j - 1] == lines[j]);
                    assert(!spec_line_matches(rest[j - 1]));
                }
            }
        } else {
            let j = choose|j: int| 0 <= j < rest.len() && spec_line_matches(rest[j]);
            assert(rest[j] == lines[j + 1]);
            assert(spec_line_matches(lines[j + 1]));
        }
    }
}

/// The first record that carries a marker decides resolution: two record
/// sequences that agree up to and including that record resolve to the same
/// outcome, whatever stands after it — later records are never examined.
pub proof fn lemma_first_match_decides(lines1: Seq<Seq<char>>, lines2: Seq<Seq<char>>, k: int)
    requires
        0 <= k < lines1.len(),
        k < lines2.len(),
        forall|j: int| 0 <= j <= k ==> lines1[j] == lines2[j],
        spec_line_matches(lines1[k]),
        forall|j: int| 0 <= j < k ==> !spec_line_matches(lines1[j]),
    ensures
        spec_resolve_lines(lines1) == spec_examine_line(lines1[k]),
        spec_resolve_lines(lines2) == spec_examine_line(lines1[k]),
    decreases k,
{
    assert(lines2[0] == lines1[0]);
    if k == 0 {
    } else {
        let rest1 = lines1.drop_first();
        let rest2 = lines2.drop_first();
        assert(!spec_line_matches(lines1[0]));
        assert forall|j: int| 0 <= j <= k - 1 implies rest1[j] == rest2[j] by {
            assert(rest1[j] == lines1[j + 1]);
            assert(rest2[j] == lines2[j + 1]);
        }
        assert(rest1[k - 1] == lines1[k]);
        assert forall|j: int| 0 <= j < k - 1 implies !spec_line_matches(rest1[j]) by {
            assert(rest1[j] == lines1[j + 1]);
        }
        lemma_first_match_decides(rest1, rest2, k - 1);
    }
}

/// Whether `pat` occurs in `text` starting at character index `i`.
fn pat_match_at(text: &str, pat: &str, i: usize, text_len: usize, pat_len: usize) -> (b: bool)
    requires
        text_len == text@.len(),
        pat_len == pat@.len(),
        i + pat_len <= text_len,
    ensures
        b == spec_match_at(text@, pat@, i as int),
{
    let mut k: usize = 0;
    while k < pat_len
        invariant
            text_len == text@.len(),
            pat_len == pat@.len(),
            i + pat_len <= text_len,
            k <= pat_len,
            forall|m: int| 0 <= m < k ==> text@[i + m] == pat@[m],
        decreases pat_len - k,
    {
        if text.get_char(i + k) != pat.get_char(k) {
            assert(!spec_match_at(text@, pat@, i as int)) by {
                if spec_match_at(text@, pat@, i as int) {
                    assert(text@[i + k] == pat@[k as int]);
                }
            }
            return false;
        }
        k += 1;
    }
    true
}

/// The start of the last occurrence of `pat` in `text`, if there is one.
fn rfind_pat(text: &str, pat: &str, text_len: usize) -> (r: Option<usize>)
    requires
        text_len == text@.len(),
    ensures
        ({
            let sr = spec_rfind_from(text@, pat@, text@.len() as int - pat@.len() as int);
            match r {
                Some(i) => sr == i && spec_match_at(text@, pat@, i as int),
                None => sr == -1,
            }
        }),
{
    let pat_len = pat.unicode_len();
    if pat_len > text_len {
        assert(spec_rfind_from(text@, pat@, text@.len() as int - pat@.len() as int) == -1);
        return None;
    }
    let mut j: usize = text_len - pat_len;
    loop
        invariant
            text_len == text@.len(),
            pat_len == pat@.len(),
            pat_len <= text_len,
            j <= text_len - pat_len,
            spec_rfind_from(text@, pat@, text@.len() as int - pat@.len() as int)
                == spec_rfind_from(text@, pat@, j as int),
        decreases j,
    {
        if pat_match_at(text, pat, j, text_len, pat_len) {
            return Some(j);
        }
        if j == 0 {
            assert(spec_rfind_from(text@, pat@, -1) == -1);
            return None;
        }
        assert(spec_rfind_from(text@, pat@, j as int) == spec_rfind_from(
            text@,
            pat@,
            j as int - 1,
        ));
        j = j - 1;
    }
}

/// The index of the first occurrence of `c` in `s` at or after `from`, or
/// `s_len` when there is none.
fn find_char_from(s: &str, c: char, from: usize, s_len: usize) -> (r: usize)
    requires
        s_len == s@.len(),
        from <= s_len,
    ensures
        r == spec_find_char_from(s@, c, from as int),
        from <= r <= s_len,
{
    let mut i: usize = from;
    while i < s_len
        invariant
            s_len == s@.len(),
            from <= i <= s_len,
            spec_find_char_from(s@, c, from as int) == spec_find_char_from(s@, c, i as int),
        decreases s_len - i,
    {
        if s.get_char(i) == c {
            return i;
        }
        i = i + 1;
    }
    i
}

/// Extract the identifier that starts at index `start` of a matching record:
/// the segment up to the next path separator, or the malformed error when
/// that segment is empty.
fn extract_after(line: &str, line_len: usize, start: usize) -> (r: Result<String, IdentityFailure>)
    requires
        line_len == line@.len(),
        start <= line_len,
    ensures
        ({
            let seg = line@.subrange(start as int, line@.len() as int);
            let id = seg.take(spec_find_char_from(seg, '/', 0));
            match r {
                Ok(s) => id.len() > 0 && s@ == id,
                Err(f) => id.len() == 0 && f == IdentityFailure::Malformed,
            }
        }),
{
    let seg = line.substring_char(start, line_len);
    let seg_len = line_len - start;
    let slash = find_char_from(seg, '/', 0, seg_len);
    if slash == 0 {
        Err(IdentityFailure::Malformed)
    } else {
        let id = seg.substring_char(0, slash);
        Ok(id.to_owned())
    }
}

/// Examine one mount record: `None` when it carries neither marker, else the
/// extracted identifier or the malformed error.
fn examine_line(line: &str, line_len: usize) -> (r: Option<Result<String, IdentityFailure>>)
    requires
        line_len == line@.len(),
    ensures
        r is Some <==> spec_line_matches(line@),
        r matches Some(res) ==> match res {
            Ok(id) => spec_examine_line(line@) == Ok::<Seq<char>, IdentityFailure>(id@)
                && id@.len() > 0,
            Err(f) => spec_examine_line(line@) == Err::<Seq<char>, IdentityFailure>(f),
        },
{
    let docker = "/docker/containers/";
    let k8s = "/kubelet/pods/";
    proof {
        reveal_strlit("/docker/containers/");
        reveal_strlit("/kubelet/pods/");
    }
    if let Some(i) = rfind_pat(line, docker, line_len) {
        assert(spec_line_marker(line@) == spec_docker_marker());
        assert(spec_marker_end(line@) == i + 19);
        Some(extract_after(line, line_len, i + 19))
    } else if let Some(i) = rfind_pat(line, k8s, line_len) {
        assert(spec_line_marker(line@) == spec_k8s_marker());
        assert(spec_marker_end(line@) == i + 14);
        Some(extract_after(line, line_len, i + 14))
    } else {
        None
    }
}

/// Resolve the identity from the text that remains, record by record.
fn resolve_rec(text: &str, text_len: usize) -> (r: Result<String, IdentityFailure>)
    requires
        text_len == text@.len(),
    ensures
        r matches Ok(id) ==> spec_resolve(text@) == Ok::<Seq<char>, IdentityFailure>(id@)
            && id@.len() > 0,
        r matches Err(f) ==> spec_resolve(text@) == Err::<Seq<char>, IdentityFailure>(f),
    decreases text@.len(),
{
    let nl = find_char_from(text, '\n', 0, text_len);
    if nl < text_len {
        let line = text.substring_char(0, nl);
        let rest = text.substring_char(nl + 1, text_len);
        proof {
            assert(spec_lines(text@) == seq![line@] + spec_lines(rest@));
            assert((seq![line@] + spec_lines(rest@))[0] == line@);
            assert((seq![line@] + spec_lines(rest@)).drop_first() =~= spec_lines(rest@));
        }
        match examine_line(line, nl) {
            Some(res) => res,
            None => resolve_rec(rest, text_len - (nl + 1)),
        }
    } else {
        proof {
            assert(spec_lines(text@) == seq![text@]);
            assert(seq![text@][0] == text@);
            assert(seq![text@].drop_first() =~= Seq::<Seq<char>>::empty());
            assert(spec_resolve_lines(Seq::<Seq<char>>::empty()) == Err::<
                Seq<char>,
                IdentityFailure,
            >(IdentityFailure::NotFound));
        }
        match examine_line(text, text_len) {
            Some(res) => res,
            None => Err(IdentityFailure::NotFound),
        }
    }
}

/// Resolve the calling container's identity from the mount-record text.
///
/// The first record that carries either marker decides the outcome: its
/// identifier when one follows the marker, the malformed error when none
/// does. Records after it are never examined. When no record carries a
/// marker the result is the not-found error — never an empty identifier.
pub fn resolve_container_id(mount_text: &str) -> (r: Result<String, IdentityFailure>)
    ensures
        r matches Ok(id) ==> spec_resolve(mount_text@) == Ok::<Seq<char>, IdentityFailure>(id@)
            && id@.len() > 0,
        r matches Err(f) ==> spec_resolve(mount_text@) == Err::<Seq<char>, IdentityFailure>(f),
{
    let len = mount_text.unicode_len();
    resolve_rec(mount_text, len)
}

} // verus!
