//! The marker by which a generated sources file is known, and the text of
//! such a file.

use vstd::prelude::*;

verus! {

/// The bytes of `@generated by crate2nix`.
pub open spec fn marker() -> Seq<u8> {
    seq![
        0x40u8, 0x67, 0x65, 0x6e, 0x65, 0x72, 0x61, 0x74, 0x65, 0x64, 0x20, 0x62, 0x79, 0x20,
        0x63, 0x72, 0x61, 0x74, 0x65, 0x32, 0x6e, 0x69, 0x78,
    ]
}

/// The first line of a generated sources file: a comment sign, a space,
/// the marker and a line feed.
pub open spec fn header() -> Seq<u8> {
    seq![0x23u8, 0x20] + marker() + seq![0x0au8]
}

/// `needle` stands in `hay` at the position `at`.
pub open spec fn occurs_at(hay: Seq<u8>, needle: Seq<u8>, at: int) -> bool {
    &&& 0 <= at
    &&& at + needle.len() <= hay.len()
    &&& hay.subrange(at, at + needle.len()) == needle
}

/// `needle` stands somewhere in `hay`.
pub open spec fn occurs(hay: Seq<u8>, needle: Seq<u8>) -> bool {
    exists|at: int| occurs_at(hay, needle, at)
}

/// A file with the content `content` was generated: the marker stands
/// somewhere in it. The marker holds no line break, so this is the same as
/// to say that one of the file's lines holds it
/// (`lemma_generated_means_a_line_has_the_marker`).
pub open spec fn is_generated(content: Seq<u8>) -> bool {
    occurs(content, marker())
}

/// The bytes of `content` from `start` up to `end` are one of its lines:
/// they hold no line feed, a line feed or the start of the content stands
/// before them, and a line feed or the end of the content after them.
pub open spec fn is_line(content: Seq<u8>, start: int, end: int) -> bool {
    &&& 0 <= start <= end <= content.len()
    &&& start == 0 || content[start - 1] == 0x0au8
    &&& end == content.len() || content[end] == 0x0au8
    &&& forall|j: int| start <= j < end ==> content[j] != 0x0au8
}

/// One of the lines of `content` holds the marker.
pub open spec fn some_line_has_marker(content: Seq<u8>) -> bool {
    exists|start: int, end: int|
        #![trigger content.subrange(start, end)]
        is_line(content, start, end) && occurs(content.subrange(start, end), marker())
}

/// Where the line around the position `pos` starts.
pub open spec fn line_start(content: Seq<u8>, pos: int) -> int
    decreases pos,
{
    if pos <= 0 || content[pos - 1] == 0x0au8 {
        pos
    } else {
        line_start(content, pos - 1)
    }
}

/// Where the line that holds the position `pos` ends.
pub open spec fn line_end(content: Seq<u8>, pos: int) -> int
    decreases content.len() - pos,
{
    if pos >= content.len() || content[pos] == 0x0au8 {
        pos
    } else {
        line_end(content, pos + 1)
    }
}

/// The content of the sources file whose body is `body`.
pub open spec fn generated_text(body: Seq<u8>) -> Seq<u8> {
    header() + body
}

fn matches_at(hay: &[u8], needle: &[u8], at: usize) -> (found: bool)
    requires
        at + needle.len() <= hay.len(),
    ensures
        found == occurs_at(hay@, needle@, at as int),
{
    let mut k: usize = 0;
    while k < needle.len()
        invariant
            k <= needle.len(),
            at + needle.len() <= hay.len(),
            forall|j: int| 0 <= j < k ==> hay@[at + j] == needle@[j],
        decreases needle.len() - k,
    {
        if hay[at + k] != needle[k] {
            proof {
                let part = hay@.subrange(at as int, at + needle.len());
                assert(part[k as int] == hay@[at + k]);
            }
            return false;
        }
        k += 1;
    }
    proof {
        assert(hay@.subrange(at as int, at + needle.len()) =~= needle@);
    }
    true
}

/// Whether `needle` stands somewhere in `hay`.
pub fn contains(hay: &[u8], needle: &[u8]) -> (found: bool)
    ensures
        found == occurs(hay@, needle@),
{
    if needle.len() > hay.len() {
        return false;
    }
    let last: usize = hay.len() - needle.len();
    let mut at: usize = 0;
    while at < last
        invariant
            at <= last,
            last + needle.len() == hay.len(),
            forall|j: int| 0 <= j < at ==> !occurs_at(hay@, needle@, j),
        decreases last - at,
    {
        if matches_at(hay, needle, at) {
            return true;
        }
        at += 1;
    }
    matches_at(hay, needle, last)
}

/// The marker, `@generated by crate2nix`, as bytes.
pub fn marker_bytes() -> (bytes: Vec<u8>)
    ensures
        bytes@ == marker(),
{
    let bytes: Vec<u8> = vec![
        0x40u8, 0x67, 0x65, 0x6e, 0x65, 0x72, 0x61, 0x74, 0x65, 0x64, 0x20, 0x62, 0x79, 0x20,
        0x63, 0x72, 0x61, 0x74, 0x65, 0x32, 0x6e, 0x69, 0x78,
    ];
    proof {
        assert(bytes@ =~= marker());
    }
    bytes
}

/// Whether a file with the content `content` carries the marker.
pub fn has_generated_marker(content: &[u8]) -> (generated: bool)
    ensures
        generated == is_generated(content@),
{
    let needle = marker_bytes();
    contains(content, needle.as_slice())
}

/// The content of the sources file whose body is `body`: the header line
/// with the marker, then the body as it is.
pub fn sources_nix_text(body: &[u8]) -> (text: Vec<u8>)
    ensures
        text@ == generated_text(body@),
{
    let needle = marker_bytes();
    let mut text: Vec<u8> = Vec::new();
    text.push(0x23u8);
    text.push(0x20u8);
    let mut i: usize = 0;
    while i < needle.len()
        invariant
            i <= needle.len(),
            needle@ == marker(),
            text@ == seq![0x23u8, 0x20] + marker().subrange(0, i as int),
        decreases needle.len() - i,
    {
        text.push(needle[i]);
        proof {
            assert(text@ =~= seq![0x23u8, 0x20] + marker().subrange(0, i + 1));
        }
        i += 1;
    }
    text.push(0x0au8);
    proof {
        assert(marker().subrange(0, i as int) =~= marker());
        assert(text@ =~= header());
    }
    let mut k: usize = 0;
    while k < body.len()
        invariant
            k <= body.len(),
            text@ == header() + body@.subrange(0, k as int),
        decreases body.len() - k,
    {
        text.push(body[k]);
        proof {
            assert(text@ =~= header() + body@.subrange(0, k + 1));
        }
        k += 1;
    }
    proof {
        assert(body@.subrange(0, k as int) =~= body@);
    }
    text
}

proof fn lemma_line_start(content: Seq<u8>, pos: int)
    requires
        0 <= pos <= content.len(),
    ensures
        0 <= line_start(content, pos) <= pos,
        line_start(content, pos) == 0 || content[line_start(content, pos) - 1] == 0x0au8,
        forall|j: int| line_start(content, pos) <= j < pos ==> content[j] != 0x0au8,
    decreases pos,
{
    if !(pos <= 0 || content[pos - 1] == 0x0au8) {
        lemma_line_start(content, pos - 1);
    }
}

proof fn lemma_line_end(content: Seq<u8>, pos: int, clear: int)
    requires
        0 <= pos <= clear <= content.len(),
        forall|j: int| pos <= j < clear ==> content[j] != 0x0au8,
    ensures
        clear <= line_end(content, pos) <= content.len(),
        line_end(content, pos) == content.len() || content[line_end(content, pos)] == 0x0au8,
        forall|j: int| pos <= j < line_end(content, pos) ==> content[j] != 0x0au8,
    decreases content.len() - pos,
{
    if !(pos >= content.len() || content[pos] == 0x0au8) {
        if pos < clear {
            lemma_line_end(content, pos + 1, clear);
        } else {
            lemma_line_end(content, pos + 1, pos + 1);
        }
    }
}

/// A file carries the marker exactly when one of its lines does: the
/// marker holds no line feed, so no occurrence of it reaches over the end
/// of a line.
pub proof fn lemma_generated_means_a_line_has_the_marker(content: Seq<u8>)
    ensures
        is_generated(content) == some_line_has_marker(content),
{
    let needle = marker();
    if is_generated(content) {
        let at = choose|at: int| occurs_at(content, needle, at);
        assert forall|j: int| at <= j < at + 23 implies content[j] != 0x0au8 by {
            assert(content[j] == content.subrange(at, at + 23)[j - at]);
            assert(needle[j - at] != 0x0au8);
        }
        lemma_line_start(content, at);
        lemma_line_end(content, at, at + 23);
        let start = line_start(content, at);
        let end = line_end(content, at);
        let line = content.subrange(start, end);
        assert(line.subrange(at - start, at - start + 23) =~= content.subrange(at, at + 23));
        assert(occurs_at(line, needle, at - start));
        assert(is_line(content, start, end));
    }
    if some_line_has_marker(content) {
        let (start, end) = choose|start: int, end: int|
            #![trigger content.subrange(start, end)]
            is_line(content, start, end) && occurs(content.subrange(start, end), needle);
        let line = content.subrange(start, end);
        let at = choose|at: int| occurs_at(line, needle, at);
        assert(content.subrange(start + at, start + at + 23) =~= line.subrange(at, at + 23));
        assert(occurs_at(content, needle, start + at));
    }
}

/// Whatever the body, the text of a generated sources file carries the
/// marker.
pub proof fn lemma_generated_text_is_generated(body: Seq<u8>)
    ensures
        is_generated(generated_text(body)),
{
    let text = generated_text(body);
    assert(text.subrange(2, 25) =~= marker());
    assert(occurs_at(text, marker(), 2));
}

} // verus!
