//! The debug overlay: a process-wide, key-addressable scratch log shown as
//! a text node, with show/hide and zoom controls.
//!
//! The log is an explicitly owned resource handed to whatever writes it —
//! never a global.  It holds up to [`LOG_CAPACITY`] key/value lines; writing
//! an existing key overwrites its value, and a `changed` flag records
//! whether anything is new since the overlay last rendered.

use vstd::prelude::*;
use crate::elements::{Element, TextSection, text};
use crate::stylesheet::{StyleEntry, TextStyle};

verus! {

/// Whether the debug overlay is on screen.
#[derive(Clone, Copy, PartialEq, Eq, Structural, Debug)]
pub enum DebugState {
    Hidden,
    Visible,
}

/// How many lines the log holds before further new keys are dropped.
pub const LOG_CAPACITY: usize = 100;

/// One key/value line of the log.
#[derive(Debug)]
pub struct LogLine {
    pub key: String,
    pub value: String,
}

/// The mathematical value of one log line.
pub struct LogLineV {
    pub key: Seq<char>,
    pub value: Seq<char>,
}

impl View for LogLine {
    type V = LogLineV;

    open spec fn view(&self) -> LogLineV {
        LogLineV { key: self.key@, value: self.value@ }
    }
}

/// The key-addressable scratch log behind the overlay.
#[derive(Debug)]
pub struct DebugLog {
    pub lines: Vec<LogLine>,
    /// Whether anything changed since the overlay last rendered.
    pub changed: bool,
}

impl View for DebugLog {
    type V = Seq<LogLineV>;

    open spec fn view(&self) -> Seq<LogLineV> {
        self.lines@.map_values(|l: LogLine| l@)
    }
}

impl DebugLog {
    /// An empty log, marked changed so the first render happens.
    pub fn new() -> (log: DebugLog)
        ensures
            log@.len() == 0,
            log.changed,
    {
        let log = DebugLog { lines: Vec::new(), changed: true };
        proof {
            assert(log@ =~= Seq::<LogLineV>::empty());
        }
        log
    }
}

/// The first index holding `key`, or -1 when no line does.
pub open spec fn spec_find_key(lines: Seq<LogLineV>, key: Seq<char>) -> int
    decreases lines.len(),
{
    if lines.len() == 0 {
        -1
    } else if lines[0].key == key {
        0
    } else {
        let r = spec_find_key(lines.drop_first(), key);
        if r == -1 {
            -1
        } else {
            r + 1
        }
    }
}

/// A key search lands at -1 or at a valid index whose key matches.
pub proof fn lemma_find_key_range(lines: Seq<LogLineV>, key: Seq<char>)
    ensures
        -1 <= spec_find_key(lines, key) < lines.len(),
        spec_find_key(lines, key) >= 0 ==> lines[spec_find_key(lines, key)].key == key,
    decreases lines.len(),
{
    if lines.len() > 0 && lines[0].key != key {
        lemma_find_key_range(lines.drop_first(), key);
    }
}

/// What writing a key/value pair leaves: the first line holding the key is
/// overwritten (no change if the value is already there); a new key is
/// appended while the log has room, and dropped once it is full.
pub open spec fn spec_console_log(lines: Seq<LogLineV>, key: Seq<char>, value: Seq<char>) -> Seq<
    LogLineV,
> {
    let f = spec_find_key(lines, key);
    if f >= 0 {
        if lines[f].value == value {
            lines
        } else {
            lines.update(f, LogLineV { key: lines[f].key, value })
        }
    } else if lines.len() < LOG_CAPACITY {
        lines.push(LogLineV { key, value })
    } else {
        lines
    }
}

/// Whether writing a key/value pair changes the log.
pub open spec fn spec_console_log_changed(
    lines: Seq<LogLineV>,
    key: Seq<char>,
    value: Seq<char>,
) -> bool {
    spec_console_log(lines, key, value) != lines || (spec_find_key(lines, key) >= 0
        && lines[spec_find_key(lines, key)].value != value) || (spec_find_key(lines, key) < 0
        && lines.len() < LOG_CAPACITY)
}

/// A mutable borrow of one line of the log.
fn line_at_mut(v: &mut Vec<LogLine>, i: usize) -> (r: &mut LogLine)
    requires
        i < old(v)@.len(),
    ensures
        *r == old(v)@[i as int],
        final(v)@ == old(v)@.update(i as int, *final(r)),
{
    &mut v[i]
}

/// Write a key/value pair to the debug log, as [`spec_console_log`] says;
/// the `changed` flag is raised whenever anything changed.
pub fn console_log(log: &mut DebugLog, key: String, value: String)
    ensures
        final(log)@ == spec_console_log(old(log)@, key@, value@),
        final(log).changed == (old(log).changed || spec_console_log_changed(
            old(log)@,
            key@,
            value@,
        )),
{
    let ghost pre = log@;
    let len = log.lines.len();
    let mut i: usize = 0;
    proof {
        assert(pre.subrange(0, len as int) =~= pre);
    }
    while i < len
        invariant
            i <= len,
            len == log.lines@.len(),
            pre == log@,
            pre == old(log)@,
            log.changed == old(log).changed,
            spec_find_key(pre, key@) == (if spec_find_key(
                pre.subrange(i as int, len as int),
                key@,
            ) == -1 {
                -1int
            } else {
                i + spec_find_key(pre.subrange(i as int, len as int), key@)
            }),
            forall|j: int| 0 <= j < i ==> pre[j].key != key@,
        decreases len - i,
    {
        let ghost rest = pre.subrange(i as int, len as int);
        proof {
            assert(rest.drop_first() =~= pre.subrange(i + 1, len as int));
            assert(rest[0] == pre[i as int]);
            assert(pre[i as int] == log.lines@[i as int]@);
        }
        if log.lines[i].key == key {
            proof {
                assert(spec_find_key(rest, key@) == 0);
                assert(spec_find_key(pre, key@) == i);
            }
            if log.lines[i].value == value {
                proof {
                    assert(pre[i as int].value == value@);
                    assert(spec_find_key(pre, key@) == i as int);
                    assert(spec_console_log(pre, key@, value@) == pre);
                    assert(!spec_console_log_changed(pre, key@, value@));
                    assert(log@ == pre);
                }
                return ;
            }
            let ghost mid = log.lines@;
            let line = line_at_mut(&mut log.lines, i);
            line.value = value;
            log.changed = true;
            proof {
                assert(log@ =~= pre.update(
                    i as int,
                    LogLineV { key: pre[i as int].key, value: value@ },
                ));
            }
            return ;
        }
        proof {
            lemma_find_key_range(rest.drop_first(), key@);
            assert(spec_find_key(rest, key@) == (if spec_find_key(rest.drop_first(), key@) == -1 {
                -1int
            } else {
                1 + spec_find_key(rest.drop_first(), key@)
            }));
        }
        i += 1;
    }
    proof {
        assert(pre.subrange(len as int, len as int) =~= Seq::<LogLineV>::empty());
        assert(spec_find_key(pre, key@) == -1);
    }
    if log.lines.len() < LOG_CAPACITY {
        log.lines.push(LogLine { key, value });
        log.changed = true;
        proof {
            assert(log@ =~= pre.push(LogLineV { key: key@, value: value@ }));
        }
    } else {
        proof {
            assert(pre.len() >= LOG_CAPACITY);
        }
    }
}

/// Empty the log.
pub fn clear_console(log: &mut DebugLog)
    ensures
        final(log)@.len() == 0,
        final(log).changed == old(log).changed,
{
    log.lines = Vec::new();
    proof {
        assert(log@ =~= Seq::<LogLineV>::empty());
    }
}

/// One rendered log line: the key, a separator, the value and a newline.
fn concat_line(key: &String, value: &String) -> (r: String)
    ensures
        r@ == key@ + ": "@ + value@ + "\n"@,
{
    let mut r = key.clone();
    r.append(": ");
    r.append(value.as_str());
    r.append("\n");
    proof {
        assert(r@ =~= key@ + ": "@ + value@ + "\n"@);
    }
    r
}

/// Render the log for the overlay's text node: a heading section, then one
/// `key: value` section per line, all in the given style.
pub fn write_console_log(log: &DebugLog, style: TextStyle) -> (sections: Vec<TextSection>)
    ensures
        sections@.len() == log@.len() + 1,
        sections@[0].text@ == "DEBUG\n"@,
        sections@[0].style == style,
        forall|k: int|
            0 <= k < log@.len() ==> {
                &&& (#[trigger] sections@[k + 1]).text@ == log@[k].key + ": "@ + log@[k].value
                    + "\n"@
                &&& sections@[k + 1].style == style
            },
{
    let mut sections: Vec<TextSection> = Vec::new();
    sections.push(TextSection { text: String::from_str("DEBUG\n"), style });
    let len = log.lines.len();
    let mut i: usize = 0;
    while i < len
        invariant
            i <= len,
            len == log.lines@.len(),
            sections@.len() == i + 1,
            sections@[0].text@ == "DEBUG\n"@,
            sections@[0].style == style,
            forall|k: int|
                0 <= k < i ==> {
                    &&& (#[trigger] sections@[k + 1]).text@ == log@[k].key + ": "@ + log@[k].value
                        + "\n"@
                    &&& sections@[k + 1].style == style
                },
        decreases len - i,
    {
        let line = concat_line(&log.lines[i].key, &log.lines[i].value);
        sections.push(TextSection { text: line, style });
        i += 1;
    }
    sections
}

/// Shrink every section's font by one pixel, stopping at zero.
pub fn zoom_out_console_log(sections: &mut Vec<TextSection>)
    ensures
        final(sections)@.len() == old(sections)@.len(),
        forall|k: int|
            0 <= k < old(sections)@.len() ==> {
                &&& (#[trigger] final(sections)@[k]).text == old(sections)@[k].text
                &&& final(sections)@[k].style.font_size == (if old(
                    sections,
                )@[k].style.font_size > 0 {
                    old(sections)@[k].style.font_size - 1
                } else {
                    0int
                })
                &&& final(sections)@[k].style.font == old(sections)@[k].style.font
                &&& final(sections)@[k].style.color == old(sections)@[k].style.color
            },
{
    let len = sections.len();
    let mut i: usize = 0;
    while i < len
        invariant
            i <= len,
            len == sections@.len(),
            forall|k: int|
                0 <= k < i ==> {
                    &&& (#[trigger] sections@[k]).text == old(sections)@[k].text
                    &&& sections@[k].style.font_size == (if old(sections)@[k].style.font_size > 0 {
                        old(sections)@[k].style.font_size - 1
                    } else {
                        0int
                    })
                    &&& sections@[k].style.font == old(sections)@[k].style.font
                    &&& sections@[k].style.color == old(sections)@[k].style.color
                },
            forall|k: int| i <= k < len ==> (#[trigger] sections@[k]) == old(sections)@[k],
        decreases len - i,
    {
        let s = &mut sections[i];
        if s.style.font_size > 0 {
            s.style.font_size = s.style.font_size - 1;
        }
        i += 1;
    }
}

/// Grow every section's font by one pixel, stopping at the largest size.
pub fn zoom_in_console_log(sections: &mut Vec<TextSection>)
    ensures
        final(sections)@.len() == old(sections)@.len(),
        forall|k: int|
            0 <= k < old(sections)@.len() ==> {
                &&& (#[trigger] final(sections)@[k]).text == old(sections)@[k].text
                &&& final(sections)@[k].style.font_size == (if old(
                    sections,
                )@[k].style.font_size < u32::MAX {
                    old(sections)@[k].style.font_size + 1
                } else {
                    u32::MAX as int
                })
                &&& final(sections)@[k].style.font == old(sections)@[k].style.font
                &&& final(sections)@[k].style.color == old(sections)@[k].style.color
            },
{
    let len = sections.len();
    let mut i: usize = 0;
    while i < len
        invariant
            i <= len,
            len == sections@.len(),
            forall|k: int|
                0 <= k < i ==> {
                    &&& (#[trigger] sections@[k]).text == old(sections)@[k].text
                    &&& sections@[k].style.font_size == (if old(sections)@[k].style.font_size
                        < u32::MAX {
                        old(sections)@[k].style.font_size + 1
                    } else {
                        u32::MAX as int
                    })
                    &&& sections@[k].style.font == old(sections)@[k].style.font
                    &&& sections@[k].style.color == old(sections)@[k].style.color
                },
            forall|k: int| i <= k < len ==> (#[trigger] sections@[k]) == old(sections)@[k],
        decreases len - i,
    {
        let s = &mut sections[i];
        if s.style.font_size < u32::MAX {
            s.style.font_size = s.style.font_size + 1;
        }
        i += 1;
    }
}

/// Show the overlay.
pub fn show_console() -> (s: DebugState)
    ensures
        s == DebugState::Visible,
{
    DebugState::Visible
}

/// Hide the overlay.
pub fn hide_console() -> (s: DebugState)
    ensures
        s == DebugState::Hidden,
{
    DebugState::Hidden
}

/// The overlay's element tree: a full-screen column holding one text node,
/// tagged `list_tag` so the render system can find and rewrite it.
pub fn debug_overlay_tree(list_tag: u64) -> (el: Element)
    ensures
        el matches Element::Div(_, children) && children@.len() == 1 && (children@[0] matches
            Element::Tagged(t, inner) && t == list_tag && *inner is Text),
{
    let mut class: Vec<StyleEntry> = Vec::new();
    class.push(crate::atoms::flex());
    class.push(crate::atoms::flex_col());
    class.push(crate::atoms::h_full());
    class.push(crate::atoms::w_full());
    let mut text_class: Vec<StyleEntry> = Vec::new();
    text_class.push(crate::atoms::text_2xl());
    let list = crate::elements::as_el(list_tag, text(&text_class, String::new()));
    let mut children: Vec<Element> = Vec::new();
    children.push(list);
    crate::elements::div(&class, children)
}

} // verus!
