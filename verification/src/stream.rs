//! The driving loop: tokens in, the samples to emit out.
//!
//! A start tag selects the active field, character data overwrites that field, and the
//! end of a `Sample` element whose accumulated type is `periodic` is a boundary at which
//! the emission policy is asked.

use crate::fields::{route, setter_for, spells, Field};
use crate::policy::EmissionPolicy;
use crate::sample_rec::{SampleRec, SampleRecView};
use vstd::prelude::*;

verus! {

/// One token of the input stream, reduced to what the conversion reads.
#[derive(Clone, Debug, PartialEq, Eq)]
pub enum Token {
    /// A start tag, with the element's local name.
    Start(String),
    /// An end tag, with the element's local name.
    End(String),
    /// Character data.
    Characters(String),
    /// Any other token.
    Other,
}

/// A [`Token`] with its texts as sequences of characters.
pub enum TokenView {
    Start(Seq<char>),
    End(Seq<char>),
    Characters(Seq<char>),
    Other,
}

impl View for Token {
    type V = TokenView;

    open spec fn view(&self) -> TokenView {
        match self {
            Token::Start(name) => TokenView::Start(name@),
            Token::End(name) => TokenView::End(name@),
            Token::Characters(text) => TokenView::Characters(text@),
            Token::Other => TokenView::Other,
        }
    }
}

impl DeepView for Token {
    type V = TokenView;

    open spec fn deep_view(&self) -> TokenView {
        self@
    }
}

/// Everything the driving loop knows after some prefix of the stream.
pub struct ScanState {
    /// The accumulator.
    pub sample: SampleRecView,
    /// The field that character data feeds, chosen by the last start tag.
    pub active: Option<Field>,
    /// The emission policy's flags.
    pub policy: EmissionPolicy,
    /// The accumulator as it stood at the first periodic boundary, where the writer is
    /// opened; its local time names the file.
    pub opened_at: Option<SampleRecView>,
    /// The snapshots emitted so far, oldest first.
    pub emitted: Seq<SampleRecView>,
}

impl ScanState {
    /// The state before any token.
    pub open spec fn initial() -> ScanState {
        ScanState {
            sample: SampleRecView::empty(),
            active: None,
            policy: EmissionPolicy::initial(),
            opened_at: None,
            emitted: Seq::empty(),
        }
    }

    /// Whether `token`, met in this state, is a periodic sample boundary.
    pub open spec fn at_boundary(self, token: TokenView) -> bool {
        token matches TokenView::End(name) && name == "Sample"@ && self.sample.is_periodic()
    }

    /// Whether `token`, met in this state, is a character update that leaves the
    /// accumulator with a cadence text.
    pub open spec fn at_cadence(self, token: TokenView) -> bool {
        &&& token matches TokenView::Characters(text)
        &&& self.active matches Some(field)
        &&& self.sample.with(field, text).has_cadence()
    }

    /// The state after `token`.
    pub open spec fn step(self, token: TokenView) -> ScanState {
        match token {
            TokenView::Start(name) => ScanState { active: route(name), ..self },
            TokenView::End(name) => if self.at_boundary(token) {
                ScanState {
                    policy: self.policy.after_boundary(),
                    opened_at: if self.policy.writer_opened {
                        self.opened_at
                    } else {
                        Some(self.sample)
                    },
                    emitted: if self.policy.emits() {
                        self.emitted.push(self.sample)
                    } else {
                        self.emitted
                    },
                    ..self
                }
            } else {
                self
            },
            TokenView::Characters(text) => match self.active {
                Some(field) => {
                    let sample = self.sample.with(field, text);
                    ScanState {
                        sample,
                        policy: self.policy.after_characters(sample.has_cadence()),
                        ..self
                    }
                },
                None => self,
            },
            TokenView::Other => self,
        }
    }
}

/// The state after all of `tokens`, starting from [`ScanState::initial`].
pub open spec fn run(tokens: Seq<TokenView>) -> ScanState
    decreases tokens.len(),
{
    if tokens.len() == 0 {
        ScanState::initial()
    } else {
        run(tokens.drop_last()).step(tokens.last())
    }
}

/// The state in which token `i` of `tokens` is met.
pub open spec fn before(tokens: Seq<TokenView>, i: int) -> ScanState {
    run(tokens.take(i))
}

/// Token `i` is a periodic sample boundary.
pub open spec fn is_boundary(tokens: Seq<TokenView>, i: int) -> bool {
    0 <= i < tokens.len() && before(tokens, i).at_boundary(tokens[i])
}

/// Token `i` is a character update after which the accumulator holds a cadence text.
pub open spec fn observes_cadence(tokens: Seq<TokenView>, i: int) -> bool {
    0 <= i < tokens.len() && before(tokens, i).at_cadence(tokens[i])
}

/// Token `i` is a periodic sample boundary at which the accumulator is emitted.
pub open spec fn emitted_at(tokens: Seq<TokenView>, i: int) -> bool {
    is_boundary(tokens, i) && before(tokens, i).policy.emits()
}

/// The driving loop's state: the accumulator, the active field, the policy, and what
/// has been selected for output so far.
pub struct Scanner {
    sample: SampleRec,
    active: Option<Field>,
    policy: EmissionPolicy,
    first: Option<SampleRec>,
    emitted: Vec<SampleRec>,
}

impl View for Scanner {
    type V = ScanState;

    closed spec fn view(&self) -> ScanState {
        ScanState {
            sample: self.sample@,
            active: self.active,
            policy: self.policy,
            opened_at: self.first.deep_view(),
            emitted: self.emitted.deep_view(),
        }
    }
}

impl Scanner {
    /// A scanner at the start of a stream.
    pub fn new() -> (scanner: Scanner)
        ensures
            scanner@ == ScanState::initial(),
    {
        let scanner = Scanner {
            sample: SampleRec::default(),
            active: None,
            policy: EmissionPolicy::new(),
            first: None,
            emitted: Vec::new(),
        };
        assert(scanner.emitted.deep_view() =~= Seq::empty());
        scanner
    }

    /// Takes the next token of the stream.
    pub fn feed(&mut self, token: &Token)
        ensures
            final(self)@ == old(self)@.step(token@),
    {
        match token {
            Token::Start(name) => {
                self.active = setter_for(name.clone());
            },
            Token::End(name) => {
                if spells(name, "Sample") && self.sample.is_periodic() {
                    let decision = self.policy.on_periodic_boundary();
                    if decision.open_writer {
                        self.first = Some(self.sample.snapshot());
                    }
                    if decision.emit {
                        let snapshot = self.sample.snapshot();
                        self.emitted.push(snapshot);
                        assert(self.emitted.deep_view() =~= old(self).emitted.deep_view().push(
                            old(self).sample@,
                        ));
                    }
                }
            },
            Token::Characters(text) => {
                if let Some(field) = self.active {
                    self.sample.set(field, text.clone());
                    let has_cadence = self.sample.has_cadence();
                    self.policy.on_characters(has_cadence);
                }
            },
            Token::Other => {},
        }
    }

    /// Ends the scan and hands out what it selected: the accumulator as it stood at the
    /// first periodic boundary, if there was one, and the snapshots to emit.
    pub fn finish(self) -> (selected: (Option<SampleRec>, Vec<SampleRec>))
        ensures
            selected.0.deep_view() == self@.opened_at,
            selected.1.deep_view() == self@.emitted,
    {
        (self.first, self.emitted)
    }
}

/// Runs the driving loop over all of `tokens`.
pub fn scan(tokens: &Vec<Token>) -> (selected: (Option<SampleRec>, Vec<SampleRec>))
    ensures
        selected.0.deep_view() == run(tokens.deep_view()).opened_at,
        selected.1.deep_view() == run(tokens.deep_view()).emitted,
{
    let ghost all = tokens.deep_view();
    let mut scanner = Scanner::new();
    let mut i: usize = 0;
    assert(all.take(0) =~= Seq::empty());
    while i < tokens.len()
        invariant
            i <= tokens.len(),
            all == tokens.deep_view(),
            scanner@ == run(all.take(i as int)),
        decreases tokens.len() - i,
    {
        proof {
            assert(all.take(i + 1).drop_last() =~= all.take(i as int));
            assert(all.take(i + 1).last() == tokens[i as int]@);
        }
        scanner.feed(&tokens[i]);
        i = i + 1;
    }
    assert(all.take(i as int) =~= all);
    scanner.finish()
}

} // verus!
