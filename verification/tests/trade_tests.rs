use longport_core::trade::{OrderSide, OrderStatus, OrderTag, OrderType, TriggerStatus};

#[test]
fn order_side_words() {
    assert_eq!(OrderSide::from_wire("Buy"), Some(OrderSide::Buy));
    assert_eq!(OrderSide::from_wire("Sell"), Some(OrderSide::Sell));
    assert_eq!(OrderSide::from_wire("buy"), None);
    assert_eq!(OrderSide::from_wire(""), None);
    assert_eq!(OrderSide::Buy.as_str(), "Buy");
    assert_eq!(OrderSide::Sell.as_str(), "Sell");
}

#[test]
fn order_type_words_stand_for_their_values_one_to_one() {
    let all = [
        (OrderType::LO, "LO"),
        (OrderType::ELO, "ELO"),
        (OrderType::MO, "MO"),
        (OrderType::AO, "AO"),
        (OrderType::ALO, "ALO"),
        (OrderType::ODD, "ODD"),
        (OrderType::LIT, "LIT"),
        (OrderType::MIT, "MIT"),
        (OrderType::TSLPAMT, "TSLPAMT"),
        (OrderType::TSLPPCT, "TSLPPCT"),
        (OrderType::TSMAMT, "TSMAMT"),
        (OrderType::TSMPCT, "TSMPCT"),
        (OrderType::SLO, "SLO"),
    ];
    for (value, word) in all {
        assert_eq!(value.as_str(), word);
        assert_eq!(OrderType::from_wire(word), Some(value));
    }
    assert_eq!(OrderType::from_wire("lo"), None);
    assert_eq!(OrderType::from_wire("TSLP"), None);
}

#[test]
fn order_status_words_stand_for_their_values_one_to_one() {
    let all = [
        (OrderStatus::NotReported, "NotReported"),
        (OrderStatus::ReplacedNotReported, "ReplacedNotReported"),
        (OrderStatus::ProtectedNotReported, "ProtectedNotReported"),
        (OrderStatus::VarietiesNotReported, "VarietiesNotReported"),
        (OrderStatus::Filled, "FilledStatus"),
        (OrderStatus::WaitToNew, "WaitToNew"),
        (OrderStatus::New, "NewStatus"),
        (OrderStatus::WaitToReplace, "WaitToReplace"),
        (OrderStatus::PendingReplace, "PendingReplaceStatus"),
        (OrderStatus::Replaced, "ReplacedStatus"),
        (OrderStatus::PartialFilled, "PartialFilledStatus"),
        (OrderStatus::WaitToCancel, "WaitToCancel"),
        (OrderStatus::PendingCancel, "PendingCancelStatus"),
        (OrderStatus::Rejected, "RejectedStatus"),
        (OrderStatus::Canceled, "CanceledStatus"),
        (OrderStatus::Expired, "ExpiredStatus"),
        (OrderStatus::PartialWithdrawal, "PartialWithdrawal"),
    ];
    for (value, word) in all {
        assert_eq!(value.as_str(), word);
        assert_eq!(OrderStatus::from_wire(word), Some(value));
    }
    assert_eq!(OrderStatus::from_wire("Filled"), None);
    assert_eq!(OrderStatus::from_wire("Unknown"), None);
}

#[test]
fn order_tag_words_stand_for_their_values_one_to_one() {
    let all = [
        (OrderTag::Normal, "Normal"),
        (OrderTag::LongTerm, "GTC"),
        (OrderTag::Grey, "Grey"),
        (OrderTag::MarginCall, "MarginCall"),
        (OrderTag::Offline, "Offline"),
        (OrderTag::Creditor, "Creditor"),
        (OrderTag::Debtor, "Debtor"),
        (OrderTag::NonExercise, "NonExercise"),
        (OrderTag::AllocatedSub, "AllocatedSub"),
    ];
    for (value, word) in all {
        assert_eq!(value.as_str(), word);
        assert_eq!(OrderTag::from_wire(word), Some(value));
    }
    assert_eq!(OrderTag::from_wire("LongTerm"), None);
}

#[test]
fn trigger_status_words_stand_for_their_values_one_to_one() {
    let all = [
        (TriggerStatus::Deactive, "DEACTIVE"),
        (TriggerStatus::Active, "ACTIVE"),
        (TriggerStatus::Released, "RELEASED"),
    ];
    for (value, word) in all {
        assert_eq!(value.as_str(), word);
        assert_eq!(TriggerStatus::from_wire(word), Some(value));
    }
    assert_eq!(TriggerStatus::from_wire("NOT_USED"), None);
}
