//! A streaming reader for SPARQL JSON results.
//!
//! The reader is fed one byte at a time. It recognises the `head` object,
//! each object of the `bindings` array and the `meta` object by their
//! braces (strings and escapes inside them are skipped), and hands out the
//! bytes of each part. Only the bindings in the window given by `offset` and
//! `limit` are kept; they are handed out in batches of `batch_size`.
//! Turning the bytes into values is left to the caller.

use std::collections::HashMap;

use vstd::prelude::*;

verus! {

#[derive(Debug, PartialEq)]
pub struct SparqlResult {
    pub head: Head,
    pub results: Bindings,
    pub meta: Meta,
}

#[derive(Debug, PartialEq)]
pub struct Meta {
    pub query_time_ms: u64,
    pub result_size_total: u64,
}

#[derive(Debug, PartialEq)]
pub struct Bindings {
    pub bindings: Vec<Binding>,
}

#[derive(Debug, PartialEq)]
pub struct Header {
    pub head: Head,
}

#[derive(Debug, PartialEq)]
pub struct Head {
    pub vars: Vec<String>,
}

#[derive(Debug, PartialEq)]
pub struct Binding(pub HashMap<String, RDFValue>);

#[derive(Debug, PartialEq)]
pub enum RDFValue {
    Uri { value: String, curie: Option<String> },
    Literal { value: String, lang: Option<String>, datatype: Option<String> },
    Bnode { value: String },
}

/// Why reading a result stream stopped.
#[derive(Debug)]
pub enum SparqlResultReaderError {
    CorruptStream,
    Canceled,
    JsonParseError(String),
}

/// A part of a result, as values.
#[derive(Debug, PartialEq)]
pub enum PartialResult {
    Header(Header),
    Bindings(Vec<Binding>),
    Meta(Meta),
}

/// A part of a result, as the bytes of its JSON text.
#[derive(Debug, PartialEq)]
pub enum RawPartialResult {
    Header(Vec<u8>),
    Bindings(Vec<Vec<u8>>),
    Meta(Vec<u8>),
}

/// What a raw part holds.
pub enum RawPartialView {
    Header(Seq<u8>),
    Bindings(Seq<Seq<u8>>),
    Meta(Seq<u8>),
}

impl View for RawPartialResult {
    type V = RawPartialView;

    open spec fn view(&self) -> RawPartialView {
        match self {
            RawPartialResult::Header(b) => RawPartialView::Header(b@),
            RawPartialResult::Bindings(bs) => RawPartialView::Bindings(bs@.map_values(|b: Vec<u8>| b@)),
            RawPartialResult::Meta(b) => RawPartialView::Meta(b@),
        }
    }
}

/// Where the reader stands in the JSON text.
#[derive(Debug, PartialEq)]
pub enum ScannerState {
    ReadingHead,
    SearchingBindings,
    SearchingBinding,
    /// Inside a binding object, at this depth of nested objects.
    ReadingBinding(u8),
    /// Inside a string; the state to go back to after it.
    ReadingString(Box<ScannerState>),
    ReadingStringEscaped(Box<ScannerState>),
    SearchchingMeta,
    ReadingMeta,
    Done,
}

impl ScannerState {
    /// Whether every binding depth in the state is at least one.
    pub fn depths_ok(&self) -> (r: bool)
        ensures
            r == depths_ok(*self),
        decreases self,
    {
        match self {
            ScannerState::ReadingBinding(d) => *d >= 1,
            ScannerState::ReadingString(prev) => prev.depths_ok(),
            ScannerState::ReadingStringEscaped(prev) => prev.depths_ok(),
            _ => true,
        }
    }

    pub fn duplicate(&self) -> (r: ScannerState)
        ensures
            r == *self,
        decreases self,
    {
        match self {
            ScannerState::ReadingHead => ScannerState::ReadingHead,
            ScannerState::SearchingBindings => ScannerState::SearchingBindings,
            ScannerState::SearchingBinding => ScannerState::SearchingBinding,
            ScannerState::ReadingBinding(d) => ScannerState::ReadingBinding(*d),
            ScannerState::ReadingString(prev) => ScannerState::ReadingString(Box::new(prev.duplicate())),
            ScannerState::ReadingStringEscaped(prev) => ScannerState::ReadingStringEscaped(
                Box::new(prev.duplicate()),
            ),
            ScannerState::SearchchingMeta => ScannerState::SearchchingMeta,
            ScannerState::ReadingMeta => ScannerState::ReadingMeta,
            ScannerState::Done => ScannerState::Done,
        }
    }
}

/// The state after one more byte.
pub open spec fn next_state(byte: u8, st: ScannerState) -> ScannerState {
    match st {
        ScannerState::ReadingHead => if byte == 0x7D {
            ScannerState::SearchingBindings
        } else if byte == 0x22 {
            ScannerState::ReadingString(Box::new(ScannerState::ReadingHead))
        } else {
            st
        },
        ScannerState::ReadingBinding(d) => if byte == 0x7D && d == 1 {
            ScannerState::SearchingBinding
        } else if byte == 0x7B {
            ScannerState::ReadingBinding((d + 1) as u8)
        } else if byte == 0x7D {
            ScannerState::ReadingBinding((d - 1) as u8)
        } else if byte == 0x22 {
            ScannerState::ReadingString(Box::new(st))
        } else {
            st
        },
        ScannerState::SearchingBindings => if byte == 0x5B {
            ScannerState::SearchingBinding
        } else {
            st
        },
        ScannerState::SearchingBinding => if byte == 0x7B {
            ScannerState::ReadingBinding(1)
        } else if byte == 0x5D {
            ScannerState::SearchchingMeta
        } else {
            st
        },
        ScannerState::ReadingString(prev) => if byte == 0x22 {
            *prev
        } else if byte == 0x5C {
            ScannerState::ReadingStringEscaped(prev)
        } else {
            st
        },
        ScannerState::ReadingStringEscaped(prev) => ScannerState::ReadingString(prev),
        ScannerState::SearchchingMeta => if byte == 0x7B {
            ScannerState::ReadingMeta
        } else {
            st
        },
        ScannerState::ReadingMeta => if byte == 0x7D {
            ScannerState::Done
        } else {
            st
        },
        ScannerState::Done => st,
    }
}

/// Whether every binding depth in the state, also in the states that a
/// string returns to, is at least one.
pub open spec fn depths_ok(st: ScannerState) -> bool
    decreases st,
{
    match st {
        ScannerState::ReadingBinding(d) => d >= 1,
        ScannerState::ReadingString(prev) => depths_ok(*prev),
        ScannerState::ReadingStringEscaped(prev) => depths_ok(*prev),
        _ => true,
    }
}

/// Whether one more byte would nest binding objects deeper than a `u8`
/// counts.
pub open spec fn too_deep(byte: u8, st: ScannerState) -> bool {
    byte == 0x7B && st == ScannerState::ReadingBinding(255)
}

/// Whether the binding with this number lies in the window of bindings to
/// hand out: at least `offset`, and fewer than `limit` after it.
pub open spec fn in_window(counter: int, offset: int, limit: Option<usize>) -> bool {
    counter >= offset && match limit {
        None => true,
        Some(l) => counter - offset < l,
    }
}

pub struct Parser {
    pub scanner_state: ScannerState,
    pub input_buffer: Vec<u8>,
    pub batch_size: usize,
    pub binding_buffer: Vec<Vec<u8>>,
    pub binding_counter: usize,
    pub limit: Option<usize>,
    pub offset: usize,
}

impl Parser {
    /// The bytes of the bindings waiting to be handed out.
    pub open spec fn pending(&self) -> Seq<Seq<u8>> {
        self.binding_buffer@.map_values(|b: Vec<u8>| b@)
    }

    /// Whether the current byte is kept in the input buffer.
    pub open spec fn stores(&self) -> bool {
        match self.scanner_state {
            ScannerState::ReadingHead | ScannerState::ReadingMeta | ScannerState::ReadingString(_)
            | ScannerState::ReadingStringEscaped(_) => true,
            ScannerState::ReadingBinding(_) => in_window(
                self.binding_counter as int,
                self.offset as int,
                self.limit,
            ),
            _ => false,
        }
    }

    pub fn new(batch_size: usize, limit: Option<usize>, offset: usize) -> (p: Self)
        ensures
            p.scanner_state == ScannerState::ReadingHead,
            p.input_buffer@ == Seq::<u8>::empty(),
            p.batch_size == batch_size,
            p.pending() == Seq::<Seq<u8>>::empty(),
            p.binding_counter == 0,
            p.limit == limit,
            p.offset == offset,
    {
        let p = Self {
            scanner_state: ScannerState::ReadingHead,
            input_buffer: Vec::new(),
            batch_size,
            binding_buffer: Vec::new(),
            binding_counter: 0,
            limit,
            offset,
        };
        assert(p.pending() =~= Seq::<Seq<u8>>::empty());
        p
    }

    /// The bindings still waiting, if any; this ends the reading.
    pub fn flush(self) -> (r: Option<RawPartialResult>)
        ensures
            self.binding_buffer.len() == 0 <==> r is None,
            r matches Some(c) ==> c@ == RawPartialView::Bindings(self.pending()),
    {
        if self.binding_buffer.len() != 0 {
            Some(RawPartialResult::Bindings(self.binding_buffer))
        } else {
            None
        }
    }

    /// Whether [`Self::read_byte`] can take this byte: the binding count must
    /// not overflow and binding objects nest at most 255 deep.
    pub fn can_read(&self, byte: u8) -> (r: bool)
        ensures
            r == (self.binding_counter < usize::MAX && depths_ok(self.scanner_state) && !too_deep(
                byte,
                self.scanner_state,
            )),
    {
        let nested = match &self.scanner_state {
            ScannerState::ReadingBinding(d) => byte == 123u8 && *d == 255,
            _ => false,
        };
        self.binding_counter < usize::MAX && self.scanner_state.depths_ok() && !nested
    }

    /// Reads one byte. Hands out the header when the `head` object closes,
    /// a batch of bindings when the batch is full, and the `meta` object
    /// when it closes.
    pub fn read_byte(&mut self, byte: u8) -> (r: Option<RawPartialResult>)
        requires
            old(self).binding_counter < usize::MAX,
            depths_ok(old(self).scanner_state),
            !too_deep(byte, old(self).scanner_state),
        ensures
            depths_ok(final(self).scanner_state),
            ({
                let o = *old(self);
                let n = *final(self);
                let stored = if o.stores() {
                    o.input_buffer@.push(byte)
                } else {
                    o.input_buffer@
                };
                &&& n.scanner_state == next_state(byte, o.scanner_state)
                &&& n.batch_size == o.batch_size && n.limit == o.limit && n.offset == o.offset
                &&& match (byte, o.scanner_state) {
                    (0x7D, ScannerState::ReadingHead) => {
                        &&& n.input_buffer@ == stored.push(0x7D)
                        &&& r matches Some(c) && c@ == RawPartialView::Header(stored.push(0x7D))
                        &&& n.pending() == o.pending() && n.binding_counter == o.binding_counter
                    },
                    (0x7D, ScannerState::ReadingBinding(1)) => {
                        let count = o.binding_counter + 1;
                        &&& n.binding_counter == count
                        &&& if count > o.offset && match o.limit {
                            None => true,
                            Some(l) => count - o.offset <= l,
                        } {
                            let all = o.pending().push(stored);
                            &&& n.input_buffer@ == stored
                            &&& if all.len() == o.batch_size {
                                &&& r matches Some(c) && c@ == RawPartialView::Bindings(all)
                                &&& n.pending() == Seq::<Seq<u8>>::empty()
                            } else {
                                &&& r is None
                                &&& n.pending() == all
                            }
                        } else {
                            &&& n.input_buffer@ == Seq::<u8>::empty()
                            &&& r is None
                            &&& n.pending() == o.pending()
                        }
                    },
                    (0x5B, ScannerState::SearchingBindings) => {
                        &&& n.input_buffer@ == Seq::<u8>::empty()
                        &&& r is None && n.pending() == o.pending() && n.binding_counter
                            == o.binding_counter
                    },
                    (0x7B, ScannerState::SearchingBinding) | (0x7B, ScannerState::SearchchingMeta) => {
                        &&& n.input_buffer@ == seq![0x7Bu8]
                        &&& r is None && n.pending() == o.pending() && n.binding_counter
                            == o.binding_counter
                    },
                    (0x7D, ScannerState::ReadingMeta) => {
                        &&& n.input_buffer@ == stored
                        &&& r matches Some(c) && c@ == RawPartialView::Meta(stored)
                        &&& n.pending() == o.pending() && n.binding_counter == o.binding_counter
                    },
                    _ => {
                        &&& n.input_buffer@ == stored
                        &&& r is None && n.pending() == o.pending() && n.binding_counter
                            == o.binding_counter
                    },
                }
            }),
    {
        let current_state = self.scanner_state.duplicate();
        let store_char = match &current_state {
            ScannerState::ReadingHead | ScannerState::ReadingMeta | ScannerState::ReadingString(_)
            | ScannerState::ReadingStringEscaped(_) => true,
            ScannerState::ReadingBinding(_) => self.binding_counter >= self.offset && match self.limit {
                None => true,
                Some(limit) => self.binding_counter - self.offset < limit,
            },
            _ => false,
        };
        if store_char {
            self.input_buffer.push(byte);
        }
        let ghost stored = self.input_buffer@;
        match current_state {
            ScannerState::ReadingHead => {
                if byte == 125u8 {
                    self.input_buffer.push(125u8);
                    self.scanner_state = ScannerState::SearchingBindings;
                    return Some(RawPartialResult::Header(self.input_buffer.clone()));
                } else if byte == 34u8 {
                    self.scanner_state = ScannerState::ReadingString(Box::new(ScannerState::ReadingHead));
                }
            },
            ScannerState::ReadingBinding(depth) => {
                if byte == 125u8 && depth == 1 {
                    self.binding_counter = self.binding_counter + 1;
                    self.scanner_state = ScannerState::SearchingBinding;
                    if self.binding_counter > self.offset && match self.limit {
                        None => true,
                        Some(limit) => self.binding_counter - self.offset <= limit,
                    } {
                        let ghost before = self.pending();
                        self.binding_buffer.push(self.input_buffer.clone());
                        assert(self.pending() =~= before.push(stored));
                        if self.binding_buffer.len() == self.batch_size {
                            let mut bindings: Vec<Vec<u8>> = Vec::new();
                            std::mem::swap(&mut bindings, &mut self.binding_buffer);
                            assert(self.pending() =~= Seq::<Seq<u8>>::empty());
                            return Some(RawPartialResult::Bindings(bindings));
                        }
                    } else {
                        self.input_buffer.clear();
                    }
                } else if byte == 123u8 {
                    self.scanner_state = ScannerState::ReadingBinding(depth + 1);
                } else if byte == 125u8 {
                    self.scanner_state = ScannerState::ReadingBinding(depth - 1);
                } else if byte == 34u8 {
                    self.scanner_state = ScannerState::ReadingString(Box::new(ScannerState::ReadingBinding(depth)));
                }
            },
            ScannerState::SearchingBindings => {
                if byte == 91u8 {
                    self.input_buffer.clear();
                    self.scanner_state = ScannerState::SearchingBinding;
                }
            },
            ScannerState::SearchingBinding => {
                if byte == 123u8 {
                    self.input_buffer.clear();
                    self.input_buffer.push(123u8);
                    self.scanner_state = ScannerState::ReadingBinding(1);
                } else if byte == 93u8 {
                    self.scanner_state = ScannerState::SearchchingMeta;
                }
            },
            ScannerState::ReadingString(prev_state) => {
                if byte == 34u8 {
                    self.scanner_state = *prev_state;
                } else if byte == 92u8 {
                    self.scanner_state = ScannerState::ReadingStringEscaped(prev_state);
                }
            },
            ScannerState::ReadingStringEscaped(prev_state) => {
                self.scanner_state = ScannerState::ReadingString(prev_state);
            },
            ScannerState::SearchchingMeta => {
                if byte == 123u8 {
                    self.input_buffer.clear();
                    self.input_buffer.push(123u8);
                    self.scanner_state = ScannerState::ReadingMeta;
                }
            },
            ScannerState::ReadingMeta => {
                if byte == 125u8 {
                    self.scanner_state = ScannerState::Done;
                    return Some(RawPartialResult::Meta(self.input_buffer.clone()));
                }
            },
            ScannerState::Done => {},
        }
        None
    }
}

} // verus!
