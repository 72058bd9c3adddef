//! Tests for the per-channel configuration transforms and the two sweeps.

use jetbrains_toolbox_updater::channels::{
    change_config, enable_channel_doc, reset_config, revert_channel_doc, AutoUpdateField,
    ChannelDoc,
};
use jetbrains_toolbox_updater::errors::UpdateError;

fn doc(auto_update: AutoUpdateField) -> ChannelDoc {
    ChannelDoc { channel_present: true, channel_is_object: true, auto_update }
}

#[test]
fn enable_sets_absent_flag() {
    let d = doc(AutoUpdateField::Absent);
    let (d1, skipped) = enable_channel_doc(d).unwrap();
    assert!(!skipped);
    assert_eq!(d1.auto_update, AutoUpdateField::Enabled);
}

#[test]
fn enable_skips_already_enabled() {
    let d = doc(AutoUpdateField::Enabled);
    let (d1, skipped) = enable_channel_doc(d).unwrap();
    assert!(skipped);
    assert_eq!(d1, d);
}

#[test]
fn enable_rejects_non_object_channel() {
    let d = ChannelDoc {
        channel_present: true,
        channel_is_object: false,
        auto_update: AutoUpdateField::Absent,
    };
    assert!(matches!(enable_channel_doc(d), Err(UpdateError::InvalidChannel)));
}

#[test]
fn enable_rejects_unexpected_flag_value() {
    let d = doc(AutoUpdateField::OtherValue);
    assert!(matches!(enable_channel_doc(d), Err(UpdateError::InvalidChannel)));
}

#[test]
fn revert_removes_flag() {
    let d = doc(AutoUpdateField::Enabled);
    let d1 = revert_channel_doc(d, false).unwrap();
    assert_eq!(d1.auto_update, AutoUpdateField::Absent);
}

#[test]
fn revert_leaves_skipped_channel_alone() {
    let d = doc(AutoUpdateField::Enabled);
    let d1 = revert_channel_doc(d, true).unwrap();
    assert_eq!(d1, d);
}

#[test]
fn revert_rejects_missing_channel_field() {
    let d = ChannelDoc {
        channel_present: false,
        channel_is_object: false,
        auto_update: AutoUpdateField::Absent,
    };
    assert!(matches!(revert_channel_doc(d, false), Err(UpdateError::InvalidChannel)));
}

#[test]
fn idempotent_noop_sweep() {
    // Every channel already auto-updating: the enable sweep changes nothing
    // and records every path; the revert sweep changes nothing either.
    let channels = vec![
        (String::from("idea.json"), doc(AutoUpdateField::Enabled)),
        (String::from("clion.json"), doc(AutoUpdateField::Enabled)),
    ];
    let (out, skipped) = change_config(&channels).unwrap();
    assert_eq!(out.len(), 2);
    for ((p0, d0), (p1, d1)) in channels.iter().zip(out.iter()) {
        assert_eq!(p0, p1);
        assert_eq!(d0, d1);
    }
    assert_eq!(skipped, vec![String::from("idea.json"), String::from("clion.json")]);
    let reverted = reset_config(&out, &skipped).unwrap();
    for ((p0, d0), (p1, d1)) in channels.iter().zip(reverted.iter()) {
        assert_eq!(p0, p1);
        assert_eq!(d0, d1);
    }
}

#[test]
fn revert_restores_mixed_sweep() {
    // A mix of present and absent flags: after enable + revert every
    // channel holds exactly its pre-session value.
    let channels = vec![
        (String::from("idea.json"), doc(AutoUpdateField::Absent)),
        (String::from("clion.json"), doc(AutoUpdateField::Enabled)),
        (String::from("rider.json"), doc(AutoUpdateField::Absent)),
    ];
    let (out, skipped) = change_config(&channels).unwrap();
    assert_eq!(skipped, vec![String::from("clion.json")]);
    for (_, d) in out.iter() {
        assert_eq!(d.auto_update, AutoUpdateField::Enabled);
    }
    let reverted = reset_config(&out, &skipped).unwrap();
    assert_eq!(reverted.len(), channels.len());
    for ((p0, d0), (p1, d1)) in channels.iter().zip(reverted.iter()) {
        assert_eq!(p0, p1);
        assert_eq!(d0, d1);
    }
}

#[test]
fn enable_sweep_aborts_on_invalid_channel() {
    let channels = vec![
        (String::from("idea.json"), doc(AutoUpdateField::Absent)),
        (String::from("broken.json"), doc(AutoUpdateField::OtherValue)),
    ];
    assert!(matches!(change_config(&channels), Err(UpdateError::InvalidChannel)));
}

#[test]
fn reset_sweep_aborts_on_missing_channel() {
    let channels = vec![(
        String::from("broken.json"),
        ChannelDoc {
            channel_present: false,
            channel_is_object: false,
            auto_update: AutoUpdateField::Absent,
        },
    )];
    let skipped: Vec<String> = Vec::new();
    assert!(matches!(reset_config(&channels, &skipped), Err(UpdateError::InvalidChannel)));
}

#[test]
fn reset_rejects_non_object_channel_field() {
    // A `channel` field that is present but not an object violates the
    // schema on revert just as it does on enable.
    let d = ChannelDoc {
        channel_present: true,
        channel_is_object: false,
        auto_update: AutoUpdateField::Absent,
    };
    let channels = vec![(String::from("odd.json"), d)];
    let skipped: Vec<String> = Vec::new();
    assert!(matches!(reset_config(&channels, &skipped), Err(UpdateError::InvalidChannel)));
}

#[test]
fn revert_rejects_non_object_channel_doc() {
    let d = ChannelDoc {
        channel_present: true,
        channel_is_object: false,
        auto_update: AutoUpdateField::Absent,
    };
    assert!(matches!(revert_channel_doc(d, false), Err(UpdateError::InvalidChannel)));
}
