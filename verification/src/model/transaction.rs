//! One record of the input.

use crate::amount::Amount;
use vstd::prelude::*;

verus! {

/// What a transaction asks for.
#[derive(Clone, Copy, Debug, PartialEq, Eq, Structural)]
pub enum TransactionType {
    Deposit,
    Withdrawal,
    Dispute,
    Resolve,
    Chargeback,
}

/// Whether `b` is ASCII white space.
pub open spec fn is_space(b: u8) -> bool {
    b == 32 || 9 <= b <= 13
}

/// `b`, or the small letter of `b` where `b` is an ASCII capital.
pub open spec fn lowered(b: u8) -> u8 {
    if 65 <= b <= 90 {
        (b + 32) as u8
    } else {
        b
    }
}

/// Whether `text` holds `word` from `start` on, in small or capital letters.
pub open spec fn reads_at(text: Seq<u8>, word: Seq<u8>, start: int) -> bool {
    &&& 0 <= start
    &&& start + word.len() <= text.len()
    &&& forall|i: int| 0 <= i < word.len() ==> lowered(text[start + i]) == #[trigger] word[i]
}

/// Whether `text` holds `word` from `start` on, in small or capital letters,
/// and nothing but white space before and after it.
pub open spec fn spelled_at(text: Seq<u8>, word: Seq<u8>, start: int) -> bool {
    &&& reads_at(text, word, start)
    &&& forall|i: int| 0 <= i < start ==> is_space(#[trigger] text[i])
    &&& forall|i: int| start + word.len() <= i < text.len() ==> is_space(#[trigger] text[i])
}

/// Whether `text` is `word` in small or capital letters, with or without
/// white space around it.
pub open spec fn spells(text: Seq<u8>, word: Seq<u8>) -> bool {
    exists|start: int| spelled_at(text, word, start)
}

/// The kind that `text` names, if it names one.
pub open spec fn kind_named(text: Seq<u8>) -> Option<TransactionType> {
    if spells(text, TransactionType::Deposit.name()) {
        Some(TransactionType::Deposit)
    } else if spells(text, TransactionType::Withdrawal.name()) {
        Some(TransactionType::Withdrawal)
    } else if spells(text, TransactionType::Dispute.name()) {
        Some(TransactionType::Dispute)
    } else if spells(text, TransactionType::Resolve.name()) {
        Some(TransactionType::Resolve)
    } else if spells(text, TransactionType::Chargeback.name()) {
        Some(TransactionType::Chargeback)
    } else {
        None
    }
}

fn is_space_byte(b: u8) -> (r: bool)
    ensures
        r == is_space(b),
{
    b == 32 || (9 <= b && b <= 13)
}

fn lowered_byte(b: u8) -> (r: u8)
    ensures
        r == lowered(b),
{
    if 65 <= b && b <= 90 {
        b + 32
    } else {
        b
    }
}

/// Between the white space at its two ends a text has one word to offer: it
/// spells `word` exactly when that word, from `start` up to `end`, is it.
proof fn lemma_one_word(text: Seq<u8>, word: Seq<u8>, start: int, end: int)
    requires
        0 <= start <= end <= text.len(),
        forall|i: int| 0 <= i < start ==> is_space(#[trigger] text[i]),
        forall|i: int| end <= i < text.len() ==> is_space(#[trigger] text[i]),
        start < end ==> !is_space(text[start]) && !is_space(text[end - 1]),
        word.len() > 0,
        forall|i: int| 0 <= i < word.len() ==> 97 <= #[trigger] word[i] <= 122,
    ensures
        spells(text, word) <==> end - start == word.len() && reads_at(text, word, start),
{
    if spells(text, word) {
        // The first and the last letter of the word found are no white
        // space, so it begins at `start` and ends at `end`.
        let found = choose|found: int| spelled_at(text, word, found);
        let last = word.len() - 1;
        assert(lowered(text[found + 0]) == word[0]);
        assert(lowered(text[found + last]) == word[last]);
    }
    if end - start == word.len() && reads_at(text, word, start) {
        assert(spelled_at(text, word, start));
    }
}

impl TransactionType {
    /// The name of the kind, in small ASCII letters.
    pub open spec fn name(self) -> Seq<u8> {
        match self {
            TransactionType::Deposit => seq![
                'd' as u8, 'e' as u8, 'p' as u8, 'o' as u8, 's' as u8, 'i' as u8, 't' as u8,
            ],
            TransactionType::Withdrawal => seq![
                'w' as u8, 'i' as u8, 't' as u8, 'h' as u8, 'd' as u8, 'r' as u8, 'a' as u8,
                'w' as u8, 'a' as u8, 'l' as u8,
            ],
            TransactionType::Dispute => seq![
                'd' as u8, 'i' as u8, 's' as u8, 'p' as u8, 'u' as u8, 't' as u8, 'e' as u8,
            ],
            TransactionType::Resolve => seq![
                'r' as u8, 'e' as u8, 's' as u8, 'o' as u8, 'l' as u8, 'v' as u8, 'e' as u8,
            ],
            TransactionType::Chargeback => seq![
                'c' as u8, 'h' as u8, 'a' as u8, 'r' as u8, 'g' as u8, 'e' as u8, 'b' as u8,
                'a' as u8, 'c' as u8, 'k' as u8,
            ],
        }
    }

    /// Every name is a word of small letters.
    proof fn lemma_name_is_a_word(self)
        ensures
            self.name().len() > 0,
            forall|i: int| 0 <= i < self.name().len() ==> 97 <= #[trigger] self.name()[i] <= 122,
    {
    }

    fn spelling(self) -> (word: Vec<u8>)
        ensures
            word@ == self.name(),
    {
        match self {
            TransactionType::Deposit => vec![
                'd' as u8, 'e' as u8, 'p' as u8, 'o' as u8, 's' as u8, 'i' as u8, 't' as u8,
            ],
            TransactionType::Withdrawal => vec![
                'w' as u8, 'i' as u8, 't' as u8, 'h' as u8, 'd' as u8, 'r' as u8, 'a' as u8,
                'w' as u8, 'a' as u8, 'l' as u8,
            ],
            TransactionType::Dispute => vec![
                'd' as u8, 'i' as u8, 's' as u8, 'p' as u8, 'u' as u8, 't' as u8, 'e' as u8,
            ],
            TransactionType::Resolve => vec![
                'r' as u8, 'e' as u8, 's' as u8, 'o' as u8, 'l' as u8, 'v' as u8, 'e' as u8,
            ],
            TransactionType::Chargeback => vec![
                'c' as u8, 'h' as u8, 'a' as u8, 'r' as u8, 'g' as u8, 'e' as u8, 'b' as u8,
                'a' as u8, 'c' as u8, 'k' as u8,
            ],
        }
    }

    /// Whether the bytes of `text` from `start` up to `end` are the name of
    /// this kind, in small or capital letters.
    fn is_named_by(self, text: &[u8], start: usize, end: usize) -> (r: bool)
        requires
            start <= end <= text@.len(),
        ensures
            r == (end - start == self.name().len() && reads_at(text@, self.name(), start as int)),
    {
        let word = self.spelling();
        if end - start != word.len() {
            return false;
        }
        let mut at: usize = 0;
        while at < word.len()
            invariant
                at <= word@.len(),
                word@ == self.name(),
                end - start == word@.len(),
                end <= text@.len(),
                forall|i: int| 0 <= i < at ==> lowered(text@[start + i]) == #[trigger] word@[i],
            decreases word@.len() - at,
        {
            if lowered_byte(text[start + at]) != word[at] {
                return false;
            }
            at += 1;
        }
        true
    }

    /// Reads the name of a kind: one of `deposit`, `withdrawal`, `dispute`,
    /// `resolve` and `chargeback`, in small or capital letters, with or
    /// without white space around it.
    pub fn from_name(name: &[u8]) -> (r: Option<TransactionType>)
        ensures
            r == kind_named(name@),
    {
        let mut start: usize = 0;
        while start < name.len() && is_space_byte(name[start])
            invariant
                start <= name@.len(),
                forall|i: int| 0 <= i < start ==> is_space(#[trigger] name@[i]),
            decreases name@.len() - start,
        {
            start += 1;
        }
        let mut end: usize = name.len();
        while end > start && is_space_byte(name[end - 1])
            invariant
                start <= end <= name@.len(),
                forall|i: int| end <= i < name@.len() ==> is_space(#[trigger] name@[i]),
            decreases end,
        {
            end -= 1;
        }
        proof {
            TransactionType::Deposit.lemma_name_is_a_word();
            TransactionType::Withdrawal.lemma_name_is_a_word();
            TransactionType::Dispute.lemma_name_is_a_word();
            TransactionType::Resolve.lemma_name_is_a_word();
            TransactionType::Chargeback.lemma_name_is_a_word();
            let s = start as int;
            let e = end as int;
            lemma_one_word(name@, TransactionType::Deposit.name(), s, e);
            lemma_one_word(name@, TransactionType::Withdrawal.name(), s, e);
            lemma_one_word(name@, TransactionType::Dispute.name(), s, e);
            lemma_one_word(name@, TransactionType::Resolve.name(), s, e);
            lemma_one_word(name@, TransactionType::Chargeback.name(), s, e);
        }
        if TransactionType::Deposit.is_named_by(name, start, end) {
            Some(TransactionType::Deposit)
        } else if TransactionType::Withdrawal.is_named_by(name, start, end) {
            Some(TransactionType::Withdrawal)
        } else if TransactionType::Dispute.is_named_by(name, start, end) {
            Some(TransactionType::Dispute)
        } else if TransactionType::Resolve.is_named_by(name, start, end) {
            Some(TransactionType::Resolve)
        } else if TransactionType::Chargeback.is_named_by(name, start, end) {
            Some(TransactionType::Chargeback)
        } else {
            None
        }
    }
}

/// A transaction: its kind, the client it belongs to, its own id and, for a
/// deposit or a withdrawal, an amount.
///
/// A dispute, a resolve and a chargeback carry no amount of their own: `tx`
/// names the deposit they act on.
#[derive(Clone, Copy, Debug)]
pub struct Transaction {
    pub kind: TransactionType,
    pub client: u16,
    pub tx: u32,
    pub amount: Option<Amount>,
}

/// A transaction with its amount in ten-thousandths.
pub struct TransactionView {
    pub kind: TransactionType,
    pub client: u16,
    pub tx: u32,
    pub amount: Option<int>,
}

impl View for Transaction {
    type V = TransactionView;

    open spec fn view(&self) -> TransactionView {
        TransactionView {
            kind: self.kind,
            client: self.client,
            tx: self.tx,
            amount: match self.amount {
                Some(a) => Some(a@),
                None => None,
            },
        }
    }
}

} // verus!
