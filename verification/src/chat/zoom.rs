//! Diagrams that are shown large.
//!
//! A tap on a diagram leaves a request; the overlay looks for one now and then,
//! and shows it until it is closed.

use vstd::prelude::*;

use crate::model;
use crate::model::Duplicate;
use crate::text;

verus! {

/// How many bytes of a picture are searched for its size.
pub const HEAD_BYTES: usize = 300;

/// How often the overlay looks for a request, in milliseconds.
pub const ZOOM_POLL_MS: u64 = 80;

// ---------------------------------------------------------------------------
// The size of a picture
// ---------------------------------------------------------------------------

/// How many bytes a character takes.
pub open spec fn byte_width(c: char) -> nat {
    let n = c as u32;
    if n < 0x80 {
        1
    } else if n < 0x800 {
        2
    } else if n < 0x10000 {
        3
    } else {
        4
    }
}

/// How many bytes a text takes.
pub open spec fn byte_len(s: Seq<char>) -> nat
    decreases s.len(),
{
    if s.len() == 0 {
        0
    } else {
        byte_width(s[0]) + byte_len(s.skip(1))
    }
}

/// How many characters take exactly the first `bytes` bytes; none if no character
/// ends there.
pub open spec fn chars_in(s: Seq<char>, bytes: nat) -> Option<nat>
    decreases s.len(),
{
    if bytes == 0 {
        Some(0)
    } else if s.len() == 0 || byte_width(s[0]) > bytes {
        None
    } else {
        match chars_in(s.skip(1), (bytes - byte_width(s[0])) as nat) {
            Some(n) => Some(n + 1),
            None => None,
        }
    }
}

/// The start of a picture: the first bytes, or all of it where no character ends
/// behind them.
pub open spec fn head(svg: Seq<char>) -> Seq<char> {
    match chars_in(svg, HEAD_BYTES as nat) {
        Some(n) => svg.take(n as int),
        None => svg,
    }
}

/// As many characters as take some bytes take that many.
pub proof fn chars_in_fit(s: Seq<char>, bytes: nat)
    ensures
        chars_in(s, bytes) matches Some(n) ==> n <= s.len() && byte_len(s.take(n as int)) == bytes,
    decreases s.len(),
{
    if bytes == 0 {
        assert(s.take(0).len() == 0);
    } else if s.len() > 0 && byte_width(s[0]) <= bytes {
        let rest = (bytes - byte_width(s[0])) as nat;
        chars_in_fit(s.skip(1), rest);
        if let Some(n) = chars_in(s.skip(1), rest) {
            assert(s.take((n + 1) as int).skip(1) =~= s.skip(1).take(n as int));
        }
    }
}

/// How many bytes a character takes.
fn width_of(c: char) -> (r: usize)
    ensures
        r == byte_width(c),
{
    let n: u32 = c as u32;
    if n < 0x80 {
        1
    } else if n < 0x800 {
        2
    } else if n < 0x10000 {
        3
    } else {
        4
    }
}

/// `head`, executable.
fn head_of(svg: &str) -> (r: String)
    ensures
        r@ == head(svg@),
{
    let chars = text::chars_of(svg);
    let ghost all = svg@;
    let mut left: usize = HEAD_BYTES;
    let mut i: usize = 0;
    assert(all.skip(0) =~= all);
    while left > 0
        invariant
            i <= chars@.len(),
            chars@ == all,
            all == svg@,
            left <= HEAD_BYTES,
            chars_in(all, HEAD_BYTES as nat) == (match chars_in(all.skip(i as int), left as nat) {
                Some(n) => Some(n + i as nat),
                None => None,
            }),
        decreases left,
    {
        let ghost rest = all.skip(i as int);
        if i >= chars.len() {
            return svg.to_owned();
        }
        assert(rest[0] == all[i as int]);
        assert(rest.skip(1) =~= all.skip(i + 1));
        let width: usize = width_of(chars[i]);
        if width > left {
            return svg.to_owned();
        }
        left = left - width;
        i = i + 1;
    }
    let out = text::string_between(chars.as_slice(), 0, i);
    assert(out@ =~= all.take(i as int));
    out
}

/// What stands before the next quotation mark, or all of it.
pub open spec fn up_to_quote(s: Seq<char>) -> Seq<char> {
    match text::cut_at(s, "\""@) {
        Some((before, _)) => before,
        None => s,
    }
}

/// The value that the start of a picture gives for an attribute. `name` ends in
/// the opening quotation mark.
pub open spec fn attribute(svg: Seq<char>, name: Seq<char>) -> Option<Seq<char>> {
    match text::cut_at(head(svg), name) {
        Some((_, rest)) => Some(up_to_quote(rest)),
        None => None,
    }
}

/// `attribute`, executable.
fn attribute_of(svg: &str, name: &str) -> (r: Option<String>)
    ensures
        model::opt_view(r) == attribute(svg@, name@),
{
    let start = head_of(svg);
    match text::split_once(start.as_str(), name) {
        Some((_, rest)) => match text::split_once(rest.as_str(), "\"") {
            Some((value, _)) => Some(value),
            None => Some(rest),
        },
        None => None,
    }
}

// ---------------------------------------------------------------------------
// Requests
// ---------------------------------------------------------------------------

/// A diagram that is to be shown large.
#[derive(Debug)]
pub struct ZoomRequest {
    pub label: String,
    pub svg: String,
    /// The width and the height that the picture gives for itself, as it writes
    /// them.
    pub width: Option<String>,
    pub height: Option<String>,
}

/// The model of a `ZoomRequest`.
#[verifier::ext_equal]
pub struct ZoomRequestView {
    pub label: Seq<char>,
    pub svg: Seq<char>,
    pub width: Option<Seq<char>>,
    pub height: Option<Seq<char>>,
}

impl View for ZoomRequest {
    type V = ZoomRequestView;

    open spec fn view(&self) -> ZoomRequestView {
        ZoomRequestView {
            label: self.label@,
            svg: self.svg@,
            width: model::opt_view(self.width),
            height: model::opt_view(self.height),
        }
    }
}

impl Duplicate for ZoomRequest {
    fn duplicate(&self) -> (r: ZoomRequest) {
        ZoomRequest {
            label: self.label.clone(),
            svg: self.svg.clone(),
            width: model::duplicate_opt(&self.width),
            height: model::duplicate_opt(&self.height),
        }
    }
}

/// The request for a diagram.
pub open spec fn request_for(label: Seq<char>, svg: Seq<char>) -> ZoomRequestView {
    ZoomRequestView {
        label,
        svg,
        width: attribute(svg, "width=\""@),
        height: attribute(svg, "height=\""@),
    }
}

/// The request for a diagram.
pub fn zoom_request(label: &str, svg: &str) -> (r: ZoomRequest)
    ensures
        r@ == request_for(label@, svg@),
{
    ZoomRequest {
        label: label.to_owned(),
        svg: svg.to_owned(),
        width: attribute_of(svg, "width=\""),
        height: attribute_of(svg, "height=\""),
    }
}

/// The last request, and what the overlay shows.
#[derive(Debug)]
pub struct Zoom {
    pub requested: Option<ZoomRequest>,
    pub shown: Option<ZoomRequest>,
}

/// The model of a `Zoom`.
#[verifier::ext_equal]
pub struct ZoomView {
    pub requested: Option<ZoomRequestView>,
    pub shown: Option<ZoomRequestView>,
}

impl View for Zoom {
    type V = ZoomView;

    open spec fn view(&self) -> ZoomView {
        ZoomView {
            requested: model::opt_view(self.requested),
            shown: model::opt_view(self.shown),
        }
    }
}

/// The state after the overlay looked for a request.
pub open spec fn after_poll(zoom: ZoomView) -> ZoomView {
    match zoom.requested {
        Some(request) => ZoomView { shown: Some(request), ..zoom },
        None => zoom,
    }
}

/// The state after the overlay was closed.
pub open spec fn after_close(zoom: ZoomView) -> ZoomView {
    ZoomView { requested: None, shown: None }
}

impl Zoom {
    /// Nothing is requested.
    pub fn new() -> (r: Zoom)
        ensures
            r@ == (ZoomView { requested: None, shown: None }),
    {
        Zoom { requested: None, shown: None }
    }

    /// Takes over that a diagram was tapped.
    pub fn request(&mut self, label: &str, svg: &str)
        ensures
            final(self)@ == (ZoomView {
                requested: Some(request_for(label@, svg@)),
                ..old(self)@
            }),
    {
        self.requested = Some(zoom_request(label, svg));
    }

    /// Looks for a request.
    pub fn poll(&mut self)
        ensures
            final(self)@ == after_poll(old(self)@),
    {
        if let Some(request) = &self.requested {
            let copy = request.duplicate();
            self.shown = Some(copy);
        }
    }

    /// Closes the overlay.
    pub fn close(&mut self)
        ensures
            final(self)@ == after_close(old(self)@),
    {
        self.shown = None;
        self.requested = None;
    }
}

/// What was closed stays closed until a diagram is tapped again, and the same one
/// can be.
pub proof fn closed_diagrams_stay_closed(zoom: ZoomView, request: ZoomRequestView)
    ensures
        after_poll(after_close(zoom)).shown is None,
        after_poll(ZoomView { requested: Some(request), ..after_close(zoom) }).shown == Some(
            request,
        ),
{
}

/// A request that was left is shown at the next look, with its own picture; without
/// one what is shown stays. Closing leaves neither.
pub proof fn requests_are_shown_at_the_next_look(zoom: ZoomView, label: Seq<char>, svg: Seq<char>)
    ensures
        ({
            let request = request_for(label, svg);
            let asked = ZoomView { requested: Some(request), ..zoom };
            &&& request.label == label
            &&& request.svg == svg
            &&& after_poll(asked).shown == Some(request)
            &&& zoom.requested is None ==> after_poll(zoom) == zoom
            &&& after_close(zoom).shown is None
            &&& after_close(zoom).requested is None
        }),
{
}

/// An attribute of a picture is what stands between the quotation marks behind its first
/// mention in the start of the picture; one that is not mentioned there has no value.
pub proof fn attributes_stand_between_quotes(
    svg: Seq<char>,
    front: Seq<char>,
    name: Seq<char>,
    value: Seq<char>,
    rest: Seq<char>,
)
    requires
        head(svg) == front + name + (value.push('"') + rest),
        forall|j: int| 0 <= j < front.len() ==> !#[trigger] text::occurs_at(head(svg), name, j),
        !value.contains('"'),
    ensures
        attribute(svg, name) == Some(value),
{
    let s = head(svg);
    let n = front.len() as int;
    let m = name.len() as int;
    let behind = value.push('"') + rest;
    assert(s.subrange(n, n + m) =~= name);
    assert(text::occurs_at(s, name, n));
    text::first_at_is_least(s, name, 0);
    assert(text::first_at(s, name, 0) == Some(n));
    assert(s.subrange(n + m, s.len() as int) =~= behind);
    reveal_strlit("\"");
    let mark = "\""@;
    let k = value.len() as int;
    assert(behind.subrange(k, k + 1) =~= mark);
    assert(text::occurs_at(behind, mark, k));
    text::first_at_is_least(behind, mark, 0);
    if let Some(i) = text::first_at(behind, mark, 0) {
        assert(behind.subrange(i, i + 1)[0] == behind[i]);
        if i < k {
            assert(value[i] == '"');
        }
        assert(behind.subrange(0, k) =~= value);
    }
}

/// The width and the height of a picture are read from the attributes of these names.
pub proof fn sizes_are_read_from_their_attributes(label: Seq<char>, svg: Seq<char>)
    ensures
        request_for(label, svg).width == attribute(svg, "width=\""@),
        request_for(label, svg).height == attribute(svg, "height=\""@),
{
}

} // verus!
