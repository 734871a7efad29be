use vstd::prelude::*;

verus! {

/// A picture printed on a reel.
#[derive(Debug, Clone, Copy, PartialEq, Eq, Structural)]
pub enum Symbol {
    Seven,
    Cherry,
    Bell,
    Diamond,
    Watermelon,
}

impl Symbol {
    /// The text that is drawn for the picture.
    pub open spec fn glyph(self) -> Seq<char> {
        match self {
            Symbol::Seven => "7"@,
            Symbol::Cherry => "🍒"@,
            Symbol::Bell => "🔔"@,
            Symbol::Diamond => "💎"@,
            Symbol::Watermelon => "🍉"@,
        }
    }

    /// How many bets three of this picture on the centre line pay.
    pub open spec fn multiplier(self) -> nat {
        match self {
            Symbol::Seven => 100,
            Symbol::Diamond => 50,
            Symbol::Bell => 20,
            Symbol::Watermelon => 15,
            Symbol::Cherry => 10,
        }
    }

    pub fn to_char(&self) -> (s: &'static str)
        ensures
            s@ == self.glyph(),
    {
        match self {
            Symbol::Seven => "7",
            Symbol::Cherry => "🍒",
            Symbol::Bell => "🔔",
            Symbol::Diamond => "💎",
            Symbol::Watermelon => "🍉",
        }
    }

    /// The multiplier of the bet that three of this picture pay.
    pub fn payout_multiplier(&self) -> (m: u32)
        ensures
            m == self.multiplier(),
    {
        match self {
            Symbol::Seven => 100,
            Symbol::Diamond => 50,
            Symbol::Bell => 20,
            Symbol::Watermelon => 15,
            Symbol::Cherry => 10,
        }
    }
}

/// The pictures that every reel of a new machine carries, top to bottom.
pub open spec fn spec_reel_pool() -> Seq<Symbol> {
    seq![
        Symbol::Seven,
        Symbol::Cherry,
        Symbol::Bell,
        Symbol::Diamond,
        Symbol::Watermelon,
        Symbol::Cherry,
    ]
}

/// Builds the strip of pictures that each reel of a new machine carries.
pub fn reel_pool() -> (pool: Vec<Symbol>)
    ensures
        pool@ == spec_reel_pool(),
{
    let mut pool: Vec<Symbol> = Vec::new();
    pool.push(Symbol::Seven);
    pool.push(Symbol::Cherry);
    pool.push(Symbol::Bell);
    pool.push(Symbol::Diamond);
    pool.push(Symbol::Watermelon);
    pool.push(Symbol::Cherry);
    pool
}

} // verus!
