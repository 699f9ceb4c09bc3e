//! Display options carried by every amount: the currency symbol, whether it
//! is shown, and how a negative sign is written.
use vstd::prelude::*;

use super::text::is_ascii_digit;

verus! {

/// Symbol used by freshly built amounts.
pub const DEFAULT_SYMBOL: char = '$';

/// Whether freshly built amounts show their symbol.
pub const DEFAULT_SHOW_SYMBOL: bool = true;

/// How freshly built amounts write a negative sign.
pub const DEFAULT_NEGATIVE_VIEW: NegativeView = NegativeView::Minus;

/// How a negative amount is written.
#[derive(Clone, Copy, Debug, PartialEq, Eq, Structural)]
pub enum NegativeView {
    /// A leading `-`.
    Minus,
    /// The whole text, symbol included, wrapped in `(` and `)`.
    Paren,
    /// Nothing: the sign is not visible in the text.
    Hide,
}

/// How an amount is written: its currency symbol, whether the symbol is
/// shown, and how a negative sign appears.
#[derive(Clone, Copy, Debug)]
pub struct Options {
    symbol: char,
    show_symbol: bool,
    negative_view: NegativeView,
}

impl Options {
    pub closed spec fn spec_new() -> Options {
        Options {
            symbol: DEFAULT_SYMBOL,
            show_symbol: DEFAULT_SHOW_SYMBOL,
            negative_view: DEFAULT_NEGATIVE_VIEW,
        }
    }

    pub closed spec fn spec_symbol(&self) -> char {
        self.symbol
    }

    pub closed spec fn spec_show_symbol(&self) -> bool {
        self.show_symbol
    }

    pub closed spec fn spec_negative_view(&self) -> NegativeView {
        self.negative_view
    }

    /// The symbol is never an ASCII digit.
    pub open spec fn wf(&self) -> bool {
        !is_ascii_digit(self.symbol())
    }

    /// The options that every amount starts with.
    pub open spec fn is_default(&self) -> bool {
        &&& self.symbol() == DEFAULT_SYMBOL
        &&& self.show_symbol() == DEFAULT_SHOW_SYMBOL
        &&& self.negative_view() == DEFAULT_NEGATIVE_VIEW
    }

    /// The default options are the options that [`Options::is_default`]
    /// describes.
    pub proof fn lemma_new_is_default()
        ensures
            Options::new().is_default(),
            Options::new().wf(),
    {
    }

    /// The default options.
    #[verifier::when_used_as_spec(spec_new)]
    pub fn new() -> (o: Options)
        ensures
            o == Options::new(),
            o.is_default(),
            o.wf(),
    {
        Options {
            symbol: DEFAULT_SYMBOL,
            show_symbol: DEFAULT_SHOW_SYMBOL,
            negative_view: DEFAULT_NEGATIVE_VIEW,
        }
    }

    /// The currency symbol in use.
    #[verifier::when_used_as_spec(spec_symbol)]
    pub fn symbol(&self) -> (r: char)
        ensures
            r == self.symbol(),
    {
        self.symbol
    }

    /// Whether the symbol is written out.
    #[verifier::when_used_as_spec(spec_show_symbol)]
    pub fn show_symbol(&self) -> (r: bool)
        ensures
            r == self.show_symbol(),
    {
        self.show_symbol
    }

    /// How a negative sign is written.
    #[verifier::when_used_as_spec(spec_negative_view)]
    pub fn negative_view(&self) -> (r: NegativeView)
        ensures
            r == self.negative_view(),
    {
        self.negative_view
    }

    /// Sets the currency symbol. An ASCII digit is refused: the call then
    /// returns `false` and changes nothing.
    pub fn set_symbol(&mut self, symbol: char) -> (r: bool)
        ensures
            r == !is_ascii_digit(symbol),
            final(self).symbol() == if r { symbol } else { old(self).symbol() },
            final(self).show_symbol() == old(self).show_symbol(),
            final(self).negative_view() == old(self).negative_view(),
            old(self).wf() ==> final(self).wf(),
    {
        if symbol >= '0' && symbol <= '9' {
            false
        } else {
            self.symbol = symbol;
            true
        }
    }

    /// Sets whether the symbol is written out.
    pub fn set_show_symbol(&mut self, show_symbol: bool)
        ensures
            final(self).symbol() == old(self).symbol(),
            final(self).show_symbol() == show_symbol,
            final(self).negative_view() == old(self).negative_view(),
    {
        self.show_symbol = show_symbol;
    }

    /// Sets how a negative sign is written.
    pub fn set_negative_view(&mut self, negative_view: NegativeView)
        ensures
            final(self).symbol() == old(self).symbol(),
            final(self).show_symbol() == old(self).show_symbol(),
            final(self).negative_view() == negative_view,
    {
        self.negative_view = negative_view;
    }
}

} // verus!
