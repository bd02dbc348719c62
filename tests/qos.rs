use dispatchr::QoS;
use priority::Priority;

#[test]
fn raw_values_of_each_class() {
    assert_eq!(QoS::UserInteractive.as_raw(), 0x21);
    assert_eq!(QoS::UserInitiated.as_raw(), 0x19);
    assert_eq!(QoS::Default.as_raw(), 0x15);
    assert_eq!(QoS::Utility.as_raw(), 0x11);
    assert_eq!(QoS::Background.as_raw(), 0x09);
    assert_eq!(QoS::Unspecified.as_raw(), 0x00);
}

#[test]
fn raw_values_are_distinct() {
    let all = [
        QoS::UserInteractive,
        QoS::UserInitiated,
        QoS::Default,
        QoS::Utility,
        QoS::Background,
        QoS::Unspecified,
    ];
    for i in 0..all.len() {
        for j in 0..all.len() {
            assert_eq!(i == j, all[i].as_raw() == all[j].as_raw());
        }
    }
}

#[test]
fn named_priorities_keep_their_class() {
    assert_eq!(QoS::from(Priority::UserInteractive), QoS::UserInteractive);
    assert_eq!(QoS::from(Priority::UserInitiated), QoS::UserInitiated);
    assert_eq!(QoS::from(Priority::Utility), QoS::Utility);
    assert_eq!(QoS::from(Priority::Background), QoS::Background);
}

#[test]
fn unknown_priority_runs_at_default_class() {
    assert_eq!(QoS::from(Priority::Unknown), QoS::Default);
    assert_eq!(QoS::from(Priority::Unknown).as_raw(), 0x15);
}

#[test]
fn into_goes_through_from() {
    let q: QoS = Priority::highest_async().into();
    assert_eq!(q, QoS::UserInitiated);
    assert_eq!(q.as_raw(), 0x19);
}
