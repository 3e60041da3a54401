//! Styled text: lines made of segments, each with a tone that the terminal front ends
//! turn into colors and weights.
use vstd::prelude::*;

verus! {

/// How a piece of text is shown.
#[derive(Clone, Copy, Debug, PartialEq, Eq, Structural)]
pub enum Tone {
    Plain,
    Bold,
    Dimmed,
    Red,
    Yellow,
    DimMeta,
    GoldenAccent,
    ReadyIndicator,
    BlockedIndicator,
    StatusInfo,
    StatusSuccess,
    StatusError,
    HelpKey,
    HelpDesc,
    BoardTitle,
    BorderSelected,
    BorderNormal,
    SelectedCard,
    /// Bold text in a column's color (red, green, blue).
    ColumnHeader(u8, u8, u8),
}

/// A piece of text with its tone.
#[derive(Debug)]
pub struct Segment {
    pub text: String,
    pub tone: Tone,
}

/// The text and tone of each segment of a line.
pub open spec fn segs(line: Seq<Segment>) -> Seq<(Seq<char>, Tone)> {
    line.map_values(|s: Segment| (s.text@, s.tone))
}

/// The segments of each line.
pub open spec fn lines_view(lines: Seq<Vec<Segment>>) -> Seq<Seq<(Seq<char>, Tone)>> {
    lines.map_values(|l: Vec<Segment>| segs(l@))
}

/// A line of one plain segment.
pub open spec fn pl(s: Seq<char>) -> Seq<(Seq<char>, Tone)> {
    seq![(s, Tone::Plain)]
}

/// A segment.
pub fn seg(text: String, tone: Tone) -> (s: Segment)
    ensures
        s.text@ == text@,
        s.tone == tone,
{
    Segment { text, tone }
}

/// A line of one plain segment.
pub fn plain_line(text: String) -> (l: Vec<Segment>)
    ensures
        segs(l@) == pl(text@),
{
    let mut l: Vec<Segment> = Vec::new();
    let ghost t = text@;
    l.push(Segment { text, tone: Tone::Plain });
    assert(segs(l@) =~= pl(t));
    l
}

/// Appends a segment to a line.
pub fn push_seg(line: &mut Vec<Segment>, text: String, tone: Tone)
    ensures
        segs(final(line)@) == segs(old(line)@).push((text@, tone)),
{
    let ghost before = line@;
    let ghost t = text@;
    line.push(Segment { text, tone });
    assert(segs(line@) =~= segs(before).push((t, tone)));
}

/// Appends a line.
pub fn push_styled(out: &mut Vec<Vec<Segment>>, line: Vec<Segment>)
    ensures
        lines_view(final(out)@) == lines_view(old(out)@).push(segs(line@)),
{
    let ghost before = out@;
    let ghost l = segs(line@);
    out.push(line);
    assert(lines_view(out@) =~= lines_view(before).push(l));
}

/// Appends a line of one plain segment.
pub fn push_plain(out: &mut Vec<Vec<Segment>>, text: String)
    ensures
        lines_view(final(out)@) == lines_view(old(out)@).push(pl(text@)),
{
    let l = plain_line(text);
    push_styled(out, l);
}


/// Appends lines.
pub fn extend_styled(out: &mut Vec<Vec<Segment>>, more: Vec<Vec<Segment>>)
    ensures
        lines_view(final(out)@) == lines_view(old(out)@) + lines_view(more@),
{
    let ghost a = out@;
    let ghost b = more@;
    let mut more = more;
    out.append(&mut more);
    assert(lines_view(out@) =~= lines_view(a) + lines_view(b));
}

} // verus!
