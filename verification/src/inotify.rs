//! The file-watcher widget: shows a watched file's contents.
//!
//! The runtime registers the watch and re-reads the file whenever the
//! watcher reports a change; this module holds the widget's
//! configuration and the verified rendering of one tick from the
//! contents read.

use vstd::prelude::*;

use crate::text::{Attributes, Text};
use vstd::string::StrSliceExecFns;

verus! {

/// Which file events the watch reports: a plain event mask, with the
/// watcher's own bit meanings.
#[derive(Clone, Copy, PartialEq, Eq, Structural, Debug)]
pub struct WatchMask {
    pub bits: u32,
}

impl WatchMask {
    pub fn new(bits: u32) -> (r: WatchMask)
        ensures
            r.bits == bits,
    {
        WatchMask { bits }
    }
}

/// A widget that renders the contents of one watched file.
pub struct Inotify {
    pub attr: Attributes,
    pub filepath: String,
    pub flags: WatchMask,
}

/// The text a tick renders from the file's contents: one trailing
/// newline stripped, nothing else changed.
pub open spec fn stripped_contents(s: Seq<char>) -> Seq<char> {
    if s.len() > 0 && s.last() == '\n' {
        s.drop_last()
    } else {
        s
    }
}

impl Inotify {
    pub fn new(attr: Attributes, filepath: String, flags: WatchMask) -> (r: Inotify)
        ensures
            r.attr == attr,
            r.filepath == filepath,
            r.flags == flags,
    {
        Inotify { attr, filepath, flags }
    }

    /// One tick, from the file contents the runtime read: a single
    /// markup frame holding the contents with one trailing newline
    /// stripped.
    pub fn tick(&self, contents: &str) -> (r: Vec<Text>)
        ensures
            r@.len() == 1,
            r@[0].attr == self.attr,
            r@[0].stretch == false,
            r@[0].markup == true,
            r@[0].text@ == stripped_contents(contents@),
    {
        let len = contents.unicode_len();
        let text: String = if len > 0 && contents.get_char(len - 1) == '\n' {
            let s = contents.substring_char(0, len - 1).to_owned();
            proof {
                assert(s@ =~= contents@.drop_last());
            }
            s
        } else {
            contents.to_owned()
        };
        let mut r: Vec<Text> = Vec::new();
        r.push(Text { attr: self.attr.clone(), text, stretch: false, markup: true });
        r
    }
}

} // verus!
