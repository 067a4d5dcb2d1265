use vstd::prelude::*;

use crate::geometry::TabId;
use crate::text::chars_of;

verus! {

/// What a NUL inside a text becomes in a NUL-terminated UTF-16 buffer.
pub const WIDE_REPLACEMENT_CHARACTER: u16 = 0xFFFD;

/// The UTF-16 code units of a character.
pub open spec fn utf16_units(c: char) -> Seq<u16> {
    let v = c as u32;
    if v < 0x10000 {
        seq![v as u16]
    } else {
        let w = v - 0x10000;
        seq![(0xD800 + w / 0x400) as u16, (0xDC00 + w % 0x400) as u16]
    }
}

/// The code units of a character with a NUL unit replaced.
pub open spec fn nul_free_units(c: char) -> Seq<u16> {
    utf16_units(c).map_values(
        |u: u16|
            if u == 0 {
                WIDE_REPLACEMENT_CHARACTER
            } else {
                u
            },
    )
}

/// The UTF-16 encoding of a text, NUL units replaced.
pub open spec fn wide_units(s: Seq<char>) -> Seq<u16>
    decreases s.len(),
{
    if s.len() == 0 {
        Seq::empty()
    } else {
        wide_units(s.drop_last()) + nul_free_units(s.last())
    }
}

/// The NUL-terminated UTF-16 buffer of a text.
pub open spec fn wide_null_units(s: Seq<char>) -> Seq<u16> {
    wide_units(s).push(0)
}

/// Appends the UTF-16 code units of a character, a NUL unit replaced.
fn push_wide_char(buffer: &mut Vec<u16>, c: char)
    ensures
        final(buffer)@ == old(buffer)@ + nul_free_units(c),
{
    let v: u32 = c as u32;
    if v < 0x10000 {
        let unit: u16 = if v == 0 {
            WIDE_REPLACEMENT_CHARACTER
        } else {
            v as u16
        };
        buffer.push(unit);
        assert(nul_free_units(c) =~= seq![unit]);
    } else {
        let w: u32 = v - 0x10000;
        assert(w < 0x100000);
        let high: u16 = (0xD800 + w / 0x400) as u16;
        let low: u16 = (0xDC00 + w % 0x400) as u16;
        buffer.push(high);
        buffer.push(low);
        assert(high != 0 && low != 0);
        assert(nul_free_units(c) =~= seq![high, low]);
    }
}

/// Refills a buffer with the NUL-terminated UTF-16 form of a text.
pub fn replace_wide_null(buffer: &mut Vec<u16>, value: &str)
    ensures
        final(buffer)@ == wide_null_units(value@),
{
    buffer.clear();
    let chars = chars_of(value);
    let mut k: usize = 0;
    while k < chars.len()
        invariant
            k <= chars@.len(),
            chars@ == value@,
            buffer@ == wide_units(chars@.subrange(0, k as int)),
        decreases chars@.len() - k,
    {
        let c = chars[k];
        proof {
            let next = chars@.subrange(0, k + 1 as int);
            assert(next.drop_last() =~= chars@.subrange(0, k as int));
            assert(next.last() == c);
        }
        push_wide_char(buffer, c);
        k += 1;
    }
    assert(chars@.subrange(0, chars@.len() as int) =~= chars@);
    buffer.push(0);
}

/// The NUL-terminated UTF-16 form of a text.
pub fn wide_null(value: &str) -> (r: Vec<u16>)
    ensures
        r@ == wide_null_units(value@),
{
    let mut buffer: Vec<u16> = Vec::new();
    replace_wide_null(&mut buffer, value);
    buffer
}

/// A text kept together with its NUL-terminated UTF-16 form; the buffer is
/// rebuilt only when the text changes.
#[derive(Debug, Clone)]
pub struct WideText {
    text: String,
    wide: Vec<u16>,
}

impl WideText {
    /// The buffer holds the encoding of the text.
    pub closed spec fn wf(&self) -> bool {
        self.wide@ == wide_null_units(self.text@)
    }

    pub closed spec fn spec_text(&self) -> Seq<char> {
        self.text@
    }

    pub fn new(text: &str) -> (w: Self)
        ensures
            w.wf(),
            w.spec_text() == text@,
    {
        let wide = wide_null(text);
        WideText { text: text.to_owned(), wide }
    }

    pub fn text(&self) -> (t: &str)
        ensures
            t@ == self.spec_text(),
    {
        self.text.as_str()
    }

    /// Takes a new text; an equal text leaves the buffer untouched.
    pub fn replace(&mut self, text: String)
        requires
            old(self).wf(),
        ensures
            final(self).wf(),
            final(self).spec_text() == text@,
            old(self).spec_text() == text@ ==> *final(self) == *old(self),
    {
        if self.text == text {
            return;
        }
        replace_wide_null(&mut self.wide, text.as_str());
        self.text = text;
    }

    /// Takes a new text; an equal text leaves the buffer untouched.
    pub fn replace_str(&mut self, text: &str)
        requires
            old(self).wf(),
        ensures
            final(self).wf(),
            final(self).spec_text() == text@,
            old(self).spec_text() == text@ ==> *final(self) == *old(self),
    {
        let owned = text.to_owned();
        if self.text == owned {
            return;
        }
        replace_wide_null(&mut self.wide, text);
        self.text = owned;
    }

    /// The NUL-terminated UTF-16 form of the text.
    pub fn wide(&self) -> (w: &[u16])
        requires
            self.wf(),
        ensures
            w@ == wide_null_units(self.spec_text()),
    {
        self.wide.as_slice()
    }
}

/// The label of a tab, kept ready for painting.
#[derive(Debug, Clone)]
pub struct CachedTabLabel {
    pub tab_id: TabId,
    pub label: WideText,
}

impl CachedTabLabel {
    pub fn new(tab_id: TabId, label: &str) -> (c: Self)
        ensures
            c.tab_id == tab_id,
            c.label.wf(),
            c.label.spec_text() == label@,
    {
        CachedTabLabel { tab_id, label: WideText::new(label) }
    }

    pub fn set(&mut self, tab_id: TabId, label: &str)
        requires
            old(self).label.wf(),
        ensures
            final(self).tab_id == tab_id,
            final(self).label.wf(),
            final(self).label.spec_text() == label@,
    {
        self.tab_id = tab_id;
        self.label.replace_str(label);
    }

    pub fn tab_id(&self) -> (t: TabId)
        ensures
            t == self.tab_id,
    {
        self.tab_id
    }

    pub fn wide(&self) -> (w: &[u16])
        requires
            self.label.wf(),
        ensures
            w@ == wide_null_units(self.label.spec_text()),
    {
        self.label.wide()
    }
}

/// Makes the cached labels match the given tabs, in order, reusing the
/// cached buffers where there are some.
pub fn sync_paint_tab_labels(paint_tab_labels: &mut Vec<CachedTabLabel>, labels: &[(TabId, &str)])
    requires
        forall|i: int| 0 <= i < old(paint_tab_labels)@.len() ==> #[trigger] old(
            paint_tab_labels,
        )@[i].label.wf(),
    ensures
        final(paint_tab_labels)@.len() == labels@.len(),
        forall|i: int|
            0 <= i < labels@.len() ==> {
                let c = #[trigger] final(paint_tab_labels)@[i];
                &&& c.tab_id == labels@[i].0
                &&& c.label.wf()
                &&& c.label.spec_text() == labels@[i].1@
            },
{
    let mut write_index: usize = 0;
    while write_index < labels.len()
        invariant
            write_index <= labels@.len(),
            paint_tab_labels@.len() >= write_index,
            forall|i: int| 0 <= i < paint_tab_labels@.len() ==> #[trigger] paint_tab_labels@[i].label.wf(),
            forall|i: int|
                0 <= i < write_index ==> {
                    let c = #[trigger] paint_tab_labels@[i];
                    &&& c.tab_id == labels@[i].0
                    &&& c.label.spec_text() == labels@[i].1@
                },
        decreases labels@.len() - write_index,
    {
        let (tab_id, label) = labels[write_index];
        if write_index < paint_tab_labels.len() {
            paint_tab_labels[write_index].set(tab_id, label);
        } else {
            paint_tab_labels.push(CachedTabLabel::new(tab_id, label));
        }
        write_index += 1;
    }
    paint_tab_labels.truncate(write_index);
}

/// Encoding is compositional: the buffer of two texts put together is the
/// first one's units followed by the second one's.
pub proof fn lemma_wide_units_concat(a: Seq<char>, b: Seq<char>)
    ensures
        wide_units(a + b) == wide_units(a) + wide_units(b),
    decreases b.len(),
{
    if b.len() == 0 {
        assert(a + b =~= a);
        assert(wide_units(b) =~= Seq::<u16>::empty());
        assert(wide_units(a) + wide_units(b) =~= wide_units(a));
    } else {
        lemma_wide_units_concat(a, b.drop_last());
        assert((a + b).drop_last() =~= a + b.drop_last());
        assert((a + b).last() == b.last());
        assert(wide_units(a) + wide_units(b) =~= wide_units(a) + wide_units(b.drop_last())
            + nul_free_units(b.last()));
    }
}

/// The only NUL unit of a buffer is its terminator.
pub proof fn lemma_wide_null_has_single_terminator(s: Seq<char>)
    ensures
        wide_null_units(s).last() == 0,
        forall|i: int| 0 <= i < wide_units(s).len() ==> #[trigger] wide_units(s)[i] != 0,
    decreases s.len(),
{
    if s.len() > 0 {
        lemma_wide_null_has_single_terminator(s.drop_last());
        let prefix = wide_units(s.drop_last());
        let tail = nul_free_units(s.last());
        assert forall|i: int| 0 <= i < wide_units(s).len() implies #[trigger] wide_units(s)[i]
            != 0 by {
            if i < prefix.len() {
                assert(wide_units(s)[i] == prefix[i]);
            } else {
                assert(wide_units(s)[i] == tail[i - prefix.len()]);
            }
        }
    }
}

} // verus!
