//! The closed vocabularies of an order's fields. Each word on the wire
//! stands for one value and each value for one word; any other word is
//! rejected.

use vstd::prelude::*;

use crate::text::str_eq;

verus! {

/// Order side
#[derive(Debug, Clone, Copy, PartialEq, Eq, Hash)]
pub enum OrderSide {
    /// Buy
    Buy,
    /// Sell
    Sell,
}

impl OrderSide {
    /// The word that stands for the value on the wire.
    pub open spec fn wire(self) -> Seq<char> {
        match self {
            OrderSide::Buy => "Buy"@,
            OrderSide::Sell => "Sell"@,
        }
    }

    /// The value that a word on the wire stands for.
    pub open spec fn of_wire(word: Seq<char>) -> Option<OrderSide> {
        if word == "Buy"@ {
            Some(OrderSide::Buy)
        } else if word == "Sell"@ {
            Some(OrderSide::Sell)
        } else {
            None
        }
    }

    /// The word that stands for the value on the wire.
    pub fn as_str(&self) -> (r: &'static str)
        ensures
            r@ == self.wire(),
    {
        match self {
            OrderSide::Buy => "Buy",
            OrderSide::Sell => "Sell",
        }
    }

    /// The value that a word on the wire stands for.
    pub fn from_wire(word: &str) -> (r: Option<OrderSide>)
        ensures
            r == OrderSide::of_wire(word@),
    {
        if str_eq(word, "Buy") {
            Some(OrderSide::Buy)
        } else if str_eq(word, "Sell") {
            Some(OrderSide::Sell)
        } else {
            None
        }
    }
}

/// The words and the values of the order side stand for each other one to one.
pub proof fn lemma_order_side_words(value: OrderSide, word: Seq<char>)
    ensures
        OrderSide::of_wire(value.wire()) == Some(value),
        OrderSide::of_wire(word) == Some(value) ==> value.wire() == word,
{
    reveal_strlit("Buy");
    reveal_strlit("Sell");
    assert("Buy"@.len() == 3);
    assert("Sell"@.len() == 4);
}

/// Order type
#[derive(Debug, Clone, Copy, PartialEq, Eq, Hash)]
pub enum OrderType {
    /// Limit Order
    LO,
    /// Enhanced Limit Order
    ELO,
    /// Market Order
    MO,
    /// At-auction Order
    AO,
    /// At-auction Limit Order
    ALO,
    /// Odd Lots Order
    ODD,
    /// Limit If Touched
    LIT,
    /// Market If Touched
    MIT,
    /// Trailing Limit If Touched (Trailing Amount)
    TSLPAMT,
    /// Trailing Limit If Touched (Trailing Percent)
    TSLPPCT,
    /// Trailing Market If Touched (Trailing Amount)
    TSMAMT,
    /// Trailing Market If Touched (Trailing Percent)
    TSMPCT,
    /// Special Limit Order
    SLO,
}

impl OrderType {
    /// The word that stands for the value on the wire.
    pub open spec fn wire(self) -> Seq<char> {
        match self {
            OrderType::LO => "LO"@,
            OrderType::ELO => "ELO"@,
            OrderType::MO => "MO"@,
            OrderType::AO => "AO"@,
            OrderType::ALO => "ALO"@,
            OrderType::ODD => "ODD"@,
            OrderType::LIT => "LIT"@,
            OrderType::MIT => "MIT"@,
            OrderType::TSLPAMT => "TSLPAMT"@,
            OrderType::TSLPPCT => "TSLPPCT"@,
            OrderType::TSMAMT => "TSMAMT"@,
            OrderType::TSMPCT => "TSMPCT"@,
            OrderType::SLO => "SLO"@,
        }
    }

    /// The value that a word on the wire stands for.
    pub open spec fn of_wire(word: Seq<char>) -> Option<OrderType> {
        if word == "LO"@ {
            Some(OrderType::LO)
        } else if word == "ELO"@ {
            Some(OrderType::ELO)
        } else if word == "MO"@ {
            Some(OrderType::MO)
        } else if word == "AO"@ {
            Some(OrderType::AO)
        } else if word == "ALO"@ {
            Some(OrderType::ALO)
        } else if word == "ODD"@ {
            Some(OrderType::ODD)
        } else if word == "LIT"@ {
            Some(OrderType::LIT)
        } else if word == "MIT"@ {
            Some(OrderType::MIT)
        } else if word == "TSLPAMT"@ {
            Some(OrderType::TSLPAMT)
        } else if word == "TSLPPCT"@ {
            Some(OrderType::TSLPPCT)
        } else if word == "TSMAMT"@ {
            Some(OrderType::TSMAMT)
        } else if word == "TSMPCT"@ {
            Some(OrderType::TSMPCT)
        } else if word == "SLO"@ {
            Some(OrderType::SLO)
        } else {
            None
        }
    }

    /// The word that stands for the value on the wire.
    pub fn as_str(&self) -> (r: &'static str)
        ensures
            r@ == self.wire(),
    {
        match self {
            OrderType::LO => "LO",
            OrderType::ELO => "ELO",
            OrderType::MO => "MO",
            OrderType::AO => "AO",
            OrderType::ALO => "ALO",
            OrderType::ODD => "ODD",
            OrderType::LIT => "LIT",
            OrderType::MIT => "MIT",
            OrderType::TSLPAMT => "TSLPAMT",
            OrderType::TSLPPCT => "TSLPPCT",
            OrderType::TSMAMT => "TSMAMT",
            OrderType::TSMPCT => "TSMPCT",
            OrderType::SLO => "SLO",
        }
    }

    /// The value that a word on the wire stands for.
    pub fn from_wire(word: &str) -> (r: Option<OrderType>)
        ensures
            r == OrderType::of_wire(word@),
    {
        if str_eq(word, "LO") {
            Some(OrderType::LO)
        } else if str_eq(word, "ELO") {
            Some(OrderType::ELO)
        } else if str_eq(word, "MO") {
            Some(OrderType::MO)
        } else if str_eq(word, "AO") {
            Some(OrderType::AO)
        } else if str_eq(word, "ALO") {
            Some(OrderType::ALO)
        } else if str_eq(word, "ODD") {
            Some(OrderType::ODD)
        } else if str_eq(word, "LIT") {
            Some(OrderType::LIT)
        } else if str_eq(word, "MIT") {
            Some(OrderType::MIT)
        } else if str_eq(word, "TSLPAMT") {
            Some(OrderType::TSLPAMT)
        } else if str_eq(word, "TSLPPCT") {
            Some(OrderType::TSLPPCT)
        } else if str_eq(word, "TSMAMT") {
            Some(OrderType::TSMAMT)
        } else if str_eq(word, "TSMPCT") {
            Some(OrderType::TSMPCT)
        } else if str_eq(word, "SLO") {
            Some(OrderType::SLO)
        } else {
            None
        }
    }
}

/// The words and the values of the order type stand for each other one to one.
pub proof fn lemma_order_type_words(value: OrderType, word: Seq<char>)
    ensures
        OrderType::of_wire(value.wire()) == Some(value),
        OrderType::of_wire(word) == Some(value) ==> value.wire() == word,
{
    reveal_strlit("LO");
    reveal_strlit("ELO");
    reveal_strlit("MO");
    reveal_strlit("AO");
    reveal_strlit("ALO");
    reveal_strlit("ODD");
    reveal_strlit("LIT");
    reveal_strlit("MIT");
    reveal_strlit("TSLPAMT");
    reveal_strlit("TSLPPCT");
    reveal_strlit("TSMAMT");
    reveal_strlit("TSMPCT");
    reveal_strlit("SLO");
    assert("LO"@.len() == 2 && "LO"@[0] == 'L');
    assert("ELO"@.len() == 3 && "ELO"@[0] == 'E');
    assert("MO"@.len() == 2 && "MO"@[0] == 'M');
    assert("AO"@.len() == 2 && "AO"@[0] == 'A');
    assert("ALO"@.len() == 3 && "ALO"@[0] == 'A');
    assert("ODD"@.len() == 3 && "ODD"@[0] == 'O');
    assert("LIT"@.len() == 3 && "LIT"@[0] == 'L');
    assert("MIT"@.len() == 3 && "MIT"@[0] == 'M');
    assert("TSLPAMT"@.len() == 7 && "TSLPAMT"@[4] == 'A');
    assert("TSLPPCT"@.len() == 7 && "TSLPPCT"@[4] == 'P');
    assert("TSMAMT"@.len() == 6 && "TSMAMT"@[3] == 'A');
    assert("TSMPCT"@.len() == 6 && "TSMPCT"@[3] == 'P');
    assert("SLO"@.len() == 3 && "SLO"@[0] == 'S');
}

/// Order status
#[derive(Debug, Clone, Copy, PartialEq, Eq, Hash)]
pub enum OrderStatus {
    /// Not reported
    NotReported,
    /// Not reported (Replaced Order)
    ReplacedNotReported,
    /// Not reported (Protected Order)
    ProtectedNotReported,
    /// Not reported (Conditional Order)
    VarietiesNotReported,
    /// Filled
    Filled,
    /// Wait To New
    WaitToNew,
    /// New
    New,
    /// Wait To Replace
    WaitToReplace,
    /// Pending Replace
    PendingReplace,
    /// Replaced
    Replaced,
    /// Partial Filled
    PartialFilled,
    /// Wait To Cancel
    WaitToCancel,
    /// Pending Cancel
    PendingCancel,
    /// Rejected
    Rejected,
    /// Canceled
    Canceled,
    /// Expired
    Expired,
    /// Partial Withdrawal
    PartialWithdrawal,
}

impl OrderStatus {
    /// The word that stands for the value on the wire.
    pub open spec fn wire(self) -> Seq<char> {
        match self {
            OrderStatus::NotReported => "NotReported"@,
            OrderStatus::ReplacedNotReported => "ReplacedNotReported"@,
            OrderStatus::ProtectedNotReported => "ProtectedNotReported"@,
            OrderStatus::VarietiesNotReported => "VarietiesNotReported"@,
            OrderStatus::Filled => "FilledStatus"@,
            OrderStatus::WaitToNew => "WaitToNew"@,
            OrderStatus::New => "NewStatus"@,
            OrderStatus::WaitToReplace => "WaitToReplace"@,
            OrderStatus::PendingReplace => "PendingReplaceStatus"@,
            OrderStatus::Replaced => "ReplacedStatus"@,
            OrderStatus::PartialFilled => "PartialFilledStatus"@,
            OrderStatus::WaitToCancel => "WaitToCancel"@,
            OrderStatus::PendingCancel => "PendingCancelStatus"@,
            OrderStatus::Rejected => "RejectedStatus"@,
            OrderStatus::Canceled => "CanceledStatus"@,
            OrderStatus::Expired => "ExpiredStatus"@,
            OrderStatus::PartialWithdrawal => "PartialWithdrawal"@,
        }
    }

    /// The value that a word on the wire stands for.
    pub open spec fn of_wire(word: Seq<char>) -> Option<OrderStatus> {
        if word == "NotReported"@ {
            Some(OrderStatus::NotReported)
        } else if word == "ReplacedNotReported"@ {
            Some(OrderStatus::ReplacedNotReported)
        } else if word == "ProtectedNotReported"@ {
            Some(OrderStatus::ProtectedNotReported)
        } else if word == "VarietiesNotReported"@ {
            Some(OrderStatus::VarietiesNotReported)
        } else if word == "FilledStatus"@ {
            Some(OrderStatus::Filled)
        } else if word == "WaitToNew"@ {
            Some(OrderStatus::WaitToNew)
        } else if word == "NewStatus"@ {
            Some(OrderStatus::New)
        } else if word == "WaitToReplace"@ {
            Some(OrderStatus::WaitToReplace)
        } else if word == "PendingReplaceStatus"@ {
            Some(OrderStatus::PendingReplace)
        } else if word == "ReplacedStatus"@ {
            Some(OrderStatus::Replaced)
        } else if word == "PartialFilledStatus"@ {
            Some(OrderStatus::PartialFilled)
        } else if word == "WaitToCancel"@ {
            Some(OrderStatus::WaitToCancel)
        } else if word == "PendingCancelStatus"@ {
            Some(OrderStatus::PendingCancel)
        } else if word == "RejectedStatus"@ {
            Some(OrderStatus::Rejected)
        } else if word == "CanceledStatus"@ {
            Some(OrderStatus::Canceled)
        } else if word == "ExpiredStatus"@ {
            Some(OrderStatus::Expired)
        } else if word == "PartialWithdrawal"@ {
            Some(OrderStatus::PartialWithdrawal)
        } else {
            None
        }
    }

    /// The word that stands for the value on the wire.
    pub fn as_str(&self) -> (r: &'static str)
        ensures
            r@ == self.wire(),
    {
        match self {
            OrderStatus::NotReported => "NotReported",
            OrderStatus::ReplacedNotReported => "ReplacedNotReported",
            OrderStatus::ProtectedNotReported => "ProtectedNotReported",
            OrderStatus::VarietiesNotReported => "VarietiesNotReported",
            OrderStatus::Filled => "FilledStatus",
            OrderStatus::WaitToNew => "WaitToNew",
            OrderStatus::New => "NewStatus",
            OrderStatus::WaitToReplace => "WaitToReplace",
            OrderStatus::PendingReplace => "PendingReplaceStatus",
            OrderStatus::Replaced => "ReplacedStatus",
            OrderStatus::PartialFilled => "PartialFilledStatus",
            OrderStatus::WaitToCancel => "WaitToCancel",
            OrderStatus::PendingCancel => "PendingCancelStatus",
            OrderStatus::Rejected => "RejectedStatus",
            OrderStatus::Canceled => "CanceledStatus",
            OrderStatus::Expired => "ExpiredStatus",
            OrderStatus::PartialWithdrawal => "PartialWithdrawal",
        }
    }

    /// The value that a word on the wire stands for.
    pub fn from_wire(word: &str) -> (r: Option<OrderStatus>)
        ensures
            r == OrderStatus::of_wire(word@),
    {
        if str_eq(word, "NotReported") {
            Some(OrderStatus::NotReported)
        } else if str_eq(word, "ReplacedNotReported") {
            Some(OrderStatus::ReplacedNotReported)
        } else if str_eq(word, "ProtectedNotReported") {
            Some(OrderStatus::ProtectedNotReported)
        } else if str_eq(word, "VarietiesNotReported") {
            Some(OrderStatus::VarietiesNotReported)
        } else if str_eq(word, "FilledStatus") {
            Some(OrderStatus::Filled)
        } else if str_eq(word, "WaitToNew") {
            Some(OrderStatus::WaitToNew)
        } else if str_eq(word, "NewStatus") {
            Some(OrderStatus::New)
        } else if str_eq(word, "WaitToReplace") {
            Some(OrderStatus::WaitToReplace)
        } else if str_eq(word, "PendingReplaceStatus") {
            Some(OrderStatus::PendingReplace)
        } else if str_eq(word, "ReplacedStatus") {
            Some(OrderStatus::Replaced)
        } else if str_eq(word, "PartialFilledStatus") {
            Some(OrderStatus::PartialFilled)
        } else if str_eq(word, "WaitToCancel") {
            Some(OrderStatus::WaitToCancel)
        } else if str_eq(word, "PendingCancelStatus") {
            Some(OrderStatus::PendingCancel)
        } else if str_eq(word, "RejectedStatus") {
            Some(OrderStatus::Rejected)
        } else if str_eq(word, "CanceledStatus") {
            Some(OrderStatus::Canceled)
        } else if str_eq(word, "ExpiredStatus") {
            Some(OrderStatus::Expired)
        } else if str_eq(word, "PartialWithdrawal") {
            Some(OrderStatus::PartialWithdrawal)
        } else {
            None
        }
    }
}

/// The words and the values of the order status stand for each other one to one.
pub proof fn lemma_order_status_words(value: OrderStatus, word: Seq<char>)
    ensures
        OrderStatus::of_wire(value.wire()) == Some(value),
        OrderStatus::of_wire(word) == Some(value) ==> value.wire() == word,
{
    reveal_strlit("NotReported");
    reveal_strlit("ReplacedNotReported");
    reveal_strlit("ProtectedNotReported");
    reveal_strlit("VarietiesNotReported");
    reveal_strlit("FilledStatus");
    reveal_strlit("WaitToNew");
    reveal_strlit("NewStatus");
    reveal_strlit("WaitToReplace");
    reveal_strlit("PendingReplaceStatus");
    reveal_strlit("ReplacedStatus");
    reveal_strlit("PartialFilledStatus");
    reveal_strlit("WaitToCancel");
    reveal_strlit("PendingCancelStatus");
    reveal_strlit("RejectedStatus");
    reveal_strlit("CanceledStatus");
    reveal_strlit("ExpiredStatus");
    reveal_strlit("PartialWithdrawal");
    assert("NotReported"@.len() == 11);
    assert("ReplacedNotReported"@.len() == 19 && "ReplacedNotReported"@[2] == 'p');
    assert("ProtectedNotReported"@.len() == 20 && "ProtectedNotReported"@[1] == 'r');
    assert("VarietiesNotReported"@.len() == 20 && "VarietiesNotReported"@[1] == 'a');
    assert("FilledStatus"@.len() == 12 && "FilledStatus"@[0] == 'F');
    assert("WaitToNew"@.len() == 9 && "WaitToNew"@[0] == 'W');
    assert("NewStatus"@.len() == 9 && "NewStatus"@[0] == 'N');
    assert("WaitToReplace"@.len() == 13 && "WaitToReplace"@[0] == 'W');
    assert("PendingReplaceStatus"@.len() == 20 && "PendingReplaceStatus"@[1] == 'e');
    assert("ReplacedStatus"@.len() == 14 && "ReplacedStatus"@[2] == 'p');
    assert("PartialFilledStatus"@.len() == 19 && "PartialFilledStatus"@[2] == 'r');
    assert("WaitToCancel"@.len() == 12 && "WaitToCancel"@[0] == 'W');
    assert("PendingCancelStatus"@.len() == 19 && "PendingCancelStatus"@[2] == 'n');
    assert("RejectedStatus"@.len() == 14 && "RejectedStatus"@[2] == 'j');
    assert("CanceledStatus"@.len() == 14 && "CanceledStatus"@[2] == 'n');
    assert("ExpiredStatus"@.len() == 13 && "ExpiredStatus"@[0] == 'E');
    assert("PartialWithdrawal"@.len() == 17);
}

/// Order tag
#[derive(Debug, Clone, Copy, PartialEq, Eq, Hash)]
pub enum OrderTag {
    /// Normal Order
    Normal,
    /// Long term Order
    LongTerm,
    /// Grey Order
    Grey,
    /// Force Selling
    MarginCall,
    /// OTC
    Offline,
    /// Option Exercise Long
    Creditor,
    /// Option Exercise Short
    Debtor,
    /// Wavier Of Option Exercise
    NonExercise,
    /// Trade Allocation
    AllocatedSub,
}

impl OrderTag {
    /// The word that stands for the value on the wire.
    pub open spec fn wire(self) -> Seq<char> {
        match self {
            OrderTag::Normal => "Normal"@,
            OrderTag::LongTerm => "GTC"@,
            OrderTag::Grey => "Grey"@,
            OrderTag::MarginCall => "MarginCall"@,
            OrderTag::Offline => "Offline"@,
            OrderTag::Creditor => "Creditor"@,
            OrderTag::Debtor => "Debtor"@,
            OrderTag::NonExercise => "NonExercise"@,
            OrderTag::AllocatedSub => "AllocatedSub"@,
        }
    }

    /// The value that a word on the wire stands for.
    pub open spec fn of_wire(word: Seq<char>) -> Option<OrderTag> {
        if word == "Normal"@ {
            Some(OrderTag::Normal)
        } else if word == "GTC"@ {
            Some(OrderTag::LongTerm)
        } else if word == "Grey"@ {
            Some(OrderTag::Grey)
        } else if word == "MarginCall"@ {
            Some(OrderTag::MarginCall)
        } else if word == "Offline"@ {
            Some(OrderTag::Offline)
        } else if word == "Creditor"@ {
            Some(OrderTag::Creditor)
        } else if word == "Debtor"@ {
            Some(OrderTag::Debtor)
        } else if word == "NonExercise"@ {
            Some(OrderTag::NonExercise)
        } else if word == "AllocatedSub"@ {
            Some(OrderTag::AllocatedSub)
        } else {
            None
        }
    }

    /// The word that stands for the value on the wire.
    pub fn as_str(&self) -> (r: &'static str)
        ensures
            r@ == self.wire(),
    {
        match self {
            OrderTag::Normal => "Normal",
            OrderTag::LongTerm => "GTC",
            OrderTag::Grey => "Grey",
            OrderTag::MarginCall => "MarginCall",
            OrderTag::Offline => "Offline",
            OrderTag::Creditor => "Creditor",
            OrderTag::Debtor => "Debtor",
            OrderTag::NonExercise => "NonExercise",
            OrderTag::AllocatedSub => "AllocatedSub",
        }
    }

    /// The value that a word on the wire stands for.
    pub fn from_wire(word: &str) -> (r: Option<OrderTag>)
        ensures
            r == OrderTag::of_wire(word@),
    {
        if str_eq(word, "Normal") {
            Some(OrderTag::Normal)
        } else if str_eq(word, "GTC") {
            Some(OrderTag::LongTerm)
        } else if str_eq(word, "Grey") {
            Some(OrderTag::Grey)
        } else if str_eq(word, "MarginCall") {
            Some(OrderTag::MarginCall)
        } else if str_eq(word, "Offline") {
            Some(OrderTag::Offline)
        } else if str_eq(word, "Creditor") {
            Some(OrderTag::Creditor)
        } else if str_eq(word, "Debtor") {
            Some(OrderTag::Debtor)
        } else if str_eq(word, "NonExercise") {
            Some(OrderTag::NonExercise)
        } else if str_eq(word, "AllocatedSub") {
            Some(OrderTag::AllocatedSub)
        } else {
            None
        }
    }
}

/// The words and the values of the order tag stand for each other one to one.
pub proof fn lemma_order_tag_words(value: OrderTag, word: Seq<char>)
    ensures
        OrderTag::of_wire(value.wire()) == Some(value),
        OrderTag::of_wire(word) == Some(value) ==> value.wire() == word,
{
    reveal_strlit("Normal");
    reveal_strlit("GTC");
    reveal_strlit("Grey");
    reveal_strlit("MarginCall");
    reveal_strlit("Offline");
    reveal_strlit("Creditor");
    reveal_strlit("Debtor");
    reveal_strlit("NonExercise");
    reveal_strlit("AllocatedSub");
    assert("Normal"@.len() == 6 && "Normal"@[0] == 'N');
    assert("GTC"@.len() == 3);
    assert("Grey"@.len() == 4);
    assert("MarginCall"@.len() == 10);
    assert("Offline"@.len() == 7);
    assert("Creditor"@.len() == 8);
    assert("Debtor"@.len() == 6 && "Debtor"@[0] == 'D');
    assert("NonExercise"@.len() == 11);
    assert("AllocatedSub"@.len() == 12);
}

/// Trigger status of a conditional order
#[derive(Debug, Clone, Copy, PartialEq, Eq, Hash)]
pub enum TriggerStatus {
    /// Deactive
    Deactive,
    /// Active
    Active,
    /// Released
    Released,
}

impl TriggerStatus {
    /// The word that stands for the value on the wire.
    pub open spec fn wire(self) -> Seq<char> {
        match self {
            TriggerStatus::Deactive => "DEACTIVE"@,
            TriggerStatus::Active => "ACTIVE"@,
            TriggerStatus::Released => "RELEASED"@,
        }
    }

    /// The value that a word on the wire stands for.
    pub open spec fn of_wire(word: Seq<char>) -> Option<TriggerStatus> {
        if word == "DEACTIVE"@ {
            Some(TriggerStatus::Deactive)
        } else if word == "ACTIVE"@ {
            Some(TriggerStatus::Active)
        } else if word == "RELEASED"@ {
            Some(TriggerStatus::Released)
        } else {
            None
        }
    }

    /// The word that stands for the value on the wire.
    pub fn as_str(&self) -> (r: &'static str)
        ensures
            r@ == self.wire(),
    {
        match self {
            TriggerStatus::Deactive => "DEACTIVE",
            TriggerStatus::Active => "ACTIVE",
            TriggerStatus::Released => "RELEASED",
        }
    }

    /// The value that a word on the wire stands for.
    pub fn from_wire(word: &str) -> (r: Option<TriggerStatus>)
        ensures
            r == TriggerStatus::of_wire(word@),
    {
        if str_eq(word, "DEACTIVE") {
            Some(TriggerStatus::Deactive)
        } else if str_eq(word, "ACTIVE") {
            Some(TriggerStatus::Active)
        } else if str_eq(word, "RELEASED") {
            Some(TriggerStatus::Released)
        } else {
            None
        }
    }
}

/// The words and the values of the trigger status stand for each other one to one.
pub proof fn lemma_trigger_status_words(value: TriggerStatus, word: Seq<char>)
    ensures
        TriggerStatus::of_wire(value.wire()) == Some(value),
        TriggerStatus::of_wire(word) == Some(value) ==> value.wire() == word,
{
    reveal_strlit("DEACTIVE");
    reveal_strlit("ACTIVE");
    reveal_strlit("RELEASED");
    assert("DEACTIVE"@.len() == 8 && "DEACTIVE"@[0] == 'D');
    assert("ACTIVE"@.len() == 6);
    assert("RELEASED"@.len() == 8 && "RELEASED"@[0] == 'R');
}

} // verus!
