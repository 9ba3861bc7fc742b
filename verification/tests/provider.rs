use companion::providers::{buttplug_targets, vibration_devices, ButtplugDevice};
use companion::provider::{IntifaceSetup, LocalSetup, LovenseSetup, ProviderSettings, ProviderTarget, ProviderError};
use companion::providers::ProviderKind;

#[test]
fn setup_present_requires_domain_and_port() {
    let mut setup = LovenseSetup::default();
    assert!(setup.present());
    setup.domain = "  ".to_owned();
    assert!(!setup.present());
    setup.domain = "127-0-0-1.lovense.club".to_owned();
    setup.http_port = 0;
    assert!(!setup.present());
}

#[test]
fn setup_normalizes_whitespace() {
    let setup = LovenseSetup {
        domain: "  example.lan  ".to_owned(),
        http_port: 30010,
    };
    assert_eq!(setup.normalized().domain, "example.lan");
}

#[test]
fn defaults_select_lovense_with_working_setup() {
    let settings = ProviderSettings::default();
    assert_eq!(settings.kind(), ProviderKind::Lovense);
    assert!(settings.present());
}

#[test]
fn local_and_intiface_presence() {
    assert!(ProviderSettings::Local(LocalSetup).present());
    assert!(ProviderSettings::Intiface(IntifaceSetup::default()).present());
    assert!(
        !ProviderSettings::Intiface(IntifaceSetup {
            websocket_url: "  ".to_owned(),
        })
        .present()
    );
}

#[test]
fn provider_kind_normalizes_its_own_fields() {
    let mut settings = ProviderSettings::Intiface(IntifaceSetup {
        websocket_url: "  ws://x  ".to_owned(),
    });
    settings.normalize();
    assert_eq!(settings.intiface().websocket_url, "ws://x");
}

#[test]
fn lovense_normalization_keeps_the_port() {
    let mut settings = ProviderSettings::Lovense(LovenseSetup {
        domain: "\tlocal.lan \n".to_owned(),
        http_port: 1234,
    });
    settings.normalize();
    assert_eq!(settings.lovense().domain, "local.lan");
    assert_eq!(settings.lovense().http_port, 1234);
    assert_eq!(settings.kind(), ProviderKind::Lovense);
}

#[test]
fn target_keeps_identifier_and_name() {
    let target = ProviderTarget::new_any("toy-1", "Nora");
    assert_eq!(target.id(), "toy-1");
    assert_eq!(target.name(), "Nora");
}

#[test]
fn provider_errors_have_plain_explanations() {
    assert_eq!(ProviderError::NotConnected.message(), "provider is not connected");
    assert_eq!(ProviderError::NotConnected.user_message(), "Not connected yet.");
    assert_eq!(
        ProviderError::InvalidSetup.user_message(),
        "Enter the required connection settings first."
    );
}

#[test]
fn provider_labels_are_distinct() {
    assert_eq!(ProviderKind::Lovense.label(), "Lovense");
    assert_eq!(ProviderKind::Local.label(), "Local (Embedded Intiface)");
    assert_eq!(ProviderKind::Intiface.log_label(), "intiface");
}


fn plug(index: u32, vibrates: bool) -> ButtplugDevice {
    ButtplugDevice {
        index,
        name: format!("toy {index}"),
        vibrates,
    }
}

#[test]
fn buttplug_devices_become_targets_by_index() {
    let targets = buttplug_targets(&vec![plug(3, true), plug(12, false)]);
    assert_eq!(targets[0].id(), "3");
    assert_eq!(targets[1].id(), "12");
    assert_eq!(targets[1].name(), "toy 12");
}

#[test]
fn vibration_goes_to_the_selected_device_or_every_vibrator() {
    let devices = vec![plug(1, true), plug(2, false), plug(3, true)];
    assert_eq!(vibration_devices(&devices, None), Ok(vec![1, 3]));
    let selected = ProviderTarget::new_any("2", "toy 2");
    assert_eq!(vibration_devices(&devices, Some(&selected)), Ok(vec![2]));
    let gone = ProviderTarget::new_any("9", "toy 9");
    assert_eq!(vibration_devices(&devices, Some(&gone)), Err(ProviderError::NotConnected));
}
