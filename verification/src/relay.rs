//! Output relay: turns the chunks read from one captured stream of a child
//! process into line events for an observer.
//!
//! One `LineRelay` serves one stream. The relay of a process's standard
//! output and that of its standard error share nothing, so neither waits for
//! the other.

use vstd::prelude::*;
use crate::lines::{
    complete_lines, final_line, lemma_line_feed_closes, lemma_lines_of_concat, lemma_open_line,
    lemma_remainder_is_open, no_newline, remainder, strip_cr, CARRIAGE_RETURN, LINE_FEED,
};

verus! {

/// Which of the two captured streams a line was read from.
#[derive(Clone, Copy, Debug, PartialEq, Eq, Structural)]
pub enum Channel {
    Stdout,
    Stderr,
}

/// The name of the event under which a line of `channel` is sent out.
pub fn event_name(channel: Channel) -> (name: &'static str)
    ensures
        name@ == (match channel {
            Channel::Stdout => "project-output"@,
            Channel::Stderr => "project-error"@,
        }),
{
    match channel {
        Channel::Stdout => "project-output",
        Channel::Stderr => "project-error",
    }
}

/// One line of output of one process.
#[derive(Clone, Debug, PartialEq, Eq)]
pub struct OutputLine {
    /// The process that wrote the line.
    pub handle: u32,
    /// The stream it wrote the line to.
    pub channel: Channel,
    /// The line without its terminator.
    pub text: String,
}

/// The model of an `OutputLine`.
pub ghost struct LineEvent {
    pub handle: u32,
    pub channel: Channel,
    pub text: Seq<char>,
}

impl View for OutputLine {
    type V = LineEvent;

    open spec fn view(&self) -> LineEvent {
        LineEvent { handle: self.handle, channel: self.channel, text: self.text@ }
    }
}

impl DeepView for OutputLine {
    type V = LineEvent;

    open spec fn deep_view(&self) -> LineEvent {
        self@
    }
}

/// The text that `String::from_utf8_lossy` makes of `bytes`.
pub uninterp spec fn utf8_lossy(bytes: Seq<u8>) -> Seq<char>;

/// `String::from_utf8_lossy` decodes bytes as UTF-8 and puts U+FFFD in place
/// of each invalid sequence; it never fails. Its result depends on the bytes
/// alone and is named by `utf8_lossy`; nothing more is claimed of it.
#[verifier::external_body]
pub(crate) fn decode_lossy(bytes: &[u8]) -> (text: String)
    ensures
        text@ == utf8_lossy(bytes@),
{
    String::from_utf8_lossy(bytes).into_owned()
}

/// The event for one line of bytes.
pub open spec fn event(handle: u32, channel: Channel, line: Seq<u8>) -> LineEvent {
    LineEvent { handle, channel, text: utf8_lossy(line) }
}

/// The events for a run of lines, in their order.
pub open spec fn events(handle: u32, channel: Channel, lines: Seq<Seq<u8>>) -> Seq<LineEvent> {
    Seq::new(lines.len(), |i: int| event(handle, channel, lines[i]))
}

/// The relay of one stream: it remembers the process, the channel and the
/// bytes of the line that no line feed has ended yet.
pub struct LineRelay {
    handle: u32,
    channel: Channel,
    pending: Vec<u8>,
}

impl LineRelay {
    /// The process whose stream is relayed.
    pub closed spec fn handle(&self) -> u32 {
        self.handle
    }

    /// The stream that is relayed.
    pub closed spec fn channel(&self) -> Channel {
        self.channel
    }

    /// The bytes of the line that is still open.
    pub closed spec fn pending(&self) -> Seq<u8> {
        self.pending@
    }

    /// The open line never holds a line feed.
    pub open spec fn wf(&self) -> bool {
        no_newline(self.pending())
    }

    /// A relay for a stream from which nothing has been read yet.
    pub fn new(handle: u32, channel: Channel) -> (relay: LineRelay)
        ensures
            relay.wf(),
            relay.handle() == handle,
            relay.channel() == channel,
            relay.pending() == Seq::<u8>::empty(),
    {
        LineRelay { handle, channel, pending: Vec::new() }
    }

    /// Ends the open line and hands it out.
    fn close_line(&mut self) -> (line: OutputLine)
        ensures
            final(self).handle == old(self).handle,
            final(self).channel == old(self).channel,
            final(self).pending@ == Seq::<u8>::empty(),
            line@ == event(old(self).handle, old(self).channel, strip_cr(old(self).pending@)),
    {
        let n = self.pending.len();
        if n > 0 && self.pending[n - 1] == CARRIAGE_RETURN {
            self.pending.pop();
        }
        let text = decode_lossy(self.pending.as_slice());
        self.pending.clear();
        OutputLine { handle: self.handle, channel: self.channel, text }
    }

    /// Takes the next chunk read from the stream and returns the lines that
    /// it completes, in their order. The bytes after the last line feed stay
    /// with the relay.
    pub fn feed(&mut self, chunk: &[u8]) -> (lines: Vec<OutputLine>)
        requires
            old(self).wf(),
        ensures
            final(self).wf(),
            final(self).handle() == old(self).handle(),
            final(self).channel() == old(self).channel(),
            final(self).pending() == remainder(old(self).pending() + chunk@),
            lines.deep_view() == events(
                old(self).handle(),
                old(self).channel(),
                complete_lines(old(self).pending() + chunk@),
            ),
    {
        let ghost start = self.pending@;
        let ghost handle = self.handle;
        let ghost channel = self.channel;
        let mut lines: Vec<OutputLine> = Vec::new();
        let mut i: usize = 0;
        proof {
            lemma_open_line(start);
        }
        while i < chunk.len()
            invariant
                i <= chunk.len(),
                self.handle == handle,
                self.channel == channel,
                self.pending@ == remainder(start + chunk@.subrange(0, i as int)),
                lines.deep_view() == events(
                    handle,
                    channel,
                    complete_lines(start + chunk@.subrange(0, i as int)),
                ),
            decreases chunk.len() - i,
        {
            let byte = chunk[i];
            let ghost seen = start + chunk@.subrange(0, i as int);
            let ghost open = self.pending@;
            let ghost sent = lines.deep_view();
            proof {
                assert(start + chunk@.subrange(0, i + 1) == seen + seq![byte]);
                assert(open + seq![byte] == open.push(byte));
                lemma_lines_of_concat(seen, seq![byte]);
                lemma_remainder_is_open(seen);
            }
            if byte == LINE_FEED {
                let line = self.close_line();
                lines.push(line);
                proof {
                    lemma_line_feed_closes(open);
                    assert(lines.deep_view() == sent.push(event(handle, channel, strip_cr(open))));
                }
            } else {
                self.pending.push(byte);
                proof {
                    lemma_open_line(open.push(byte));
                }
            }
            i += 1;
        }
        proof {
            assert(chunk@.subrange(0, i as int) == chunk@);
            lemma_remainder_is_open(start + chunk@);
        }
        lines
    }

    /// Closes the relay when its stream has reported end of data: what is
    /// still open is the last line, and an empty rest is no line.
    pub fn finish(self) -> (last: Option<OutputLine>)
        requires
            self.wf(),
        ensures
            last.deep_view() == (match final_line(self.pending()) {
                Some(line) => Some(event(self.handle(), self.channel(), line)),
                None => None,
            }),
            final_line(self.pending()) == (if self.pending().len() > 0 {
                Some(self.pending())
            } else {
                None
            }),
    {
        proof {
            lemma_open_line(self.pending@);
        }
        if self.pending.len() == 0 {
            None
        } else {
            let text = decode_lossy(self.pending.as_slice());
            Some(OutputLine { handle: self.handle, channel: self.channel, text })
        }
    }
}

} // verus!
