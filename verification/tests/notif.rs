use win_toast_notify::win_toast_notif::{
    Action, ActivationType, Audio, Duration, ImagePlacement, LogoCropCircle, Loop, WinToastNotif,
};

const DEFAULT_APP_ID: &str =
    "{1AC14E77-02E7-4E5D-B744-2EB1AE5198B7}\\WindowsPowerShell\\v1.0\\powershell.exe";

#[test]
fn notif_default_show_command_is_exact() {
    let cmd = WinToastNotif::new().show_command();
    let mut expected = String::from("$xml = @\"");
    expected += "\n            <toast>";
    expected += "\n                <visual>";
    expected += "\n                    <binding template=\"ToastGeneric\">";
    expected += "\n                        ";
    expected += "\n                        ";
    expected += "\n                        ";
    expected += "\n<text>Hellow World</text>";
    expected += "\n                        ";
    expected += "\n                    </binding>";
    expected += "\n                </visual>";
    expected += "\n                <actions>";
    expected += "\n                    ";
    expected += "\n                </actions>";
    expected += "\n                ";
    expected += "\n<audio silent=\"true\" />";
    expected += "\n            </toast>";
    expected += "\n            ";
    expected += "\n\"@";
    expected += "\n            $XmlDocument = [Windows.Data.Xml.Dom.XmlDocument, Windows.Data.Xml.Dom.XmlDocument, ContentType = WindowsRuntime]::New()";
    expected += "\n            $XmlDocument.loadXml($xml)";
    expected += "\n            $AppId = '";
    expected += DEFAULT_APP_ID;
    expected += "'";
    expected += "\n            [Windows.UI.Notifications.ToastNotificationManager, Windows.UI.Notifications, ContentType = WindowsRuntime]::CreateToastNotifier($AppId).Show($XmlDocument)";
    expected += "\n            ";
    assert_eq!(cmd, expected);
}

#[test]
fn notif_timeout_duration_marks_incoming_call() {
    let xml = WinToastNotif::new().set_duration(Duration::TimeOut).toast_xml();
    assert!(xml.contains("<toastscenario=\"incomingCall\">"));
    let xml = WinToastNotif::new().set_duration(Duration::Long).toast_xml();
    assert!(xml.contains("<toast duration=\"long\">"));
}

#[test]
fn notif_setters_store_raw_text() {
    let xml = WinToastNotif::new().set_title("a<b & c>").toast_xml();
    assert!(xml.contains("\n<text>a<b & c></text>"));
    let xml = WinToastNotif::new().set_notif_open("  https://example.com  ").toast_xml();
    assert!(xml.contains("launch=\"  https://example.com  \""));
}

#[test]
fn notif_messages_replace_placeholder() {
    let xml = WinToastNotif::new().set_messages(vec!["one", "two"]).toast_xml();
    assert!(xml.contains("\n<text>one</text>\n<text>two</text>"));
    assert!(!xml.contains("Hellow World"));
}

#[test]
fn notif_logo_and_image() {
    let xml = WinToastNotif::new()
        .set_logo("C:\\me.jpeg", LogoCropCircle::True)
        .set_image("C:\\pic.jpg", ImagePlacement::Top)
        .toast_xml();
    assert!(xml.contains(
        "\n<image placement=\"appLogoOverride\" hint-crop=\"circle\" src=\"C:\\me.jpeg\"/>"
    ));
    assert!(xml.contains("\n<image placement=\"hero\" src=\"C:\\pic.jpg\"/>"));
}

#[test]
fn notif_actions_block() {
    let xml = WinToastNotif::new()
        .set_actions(vec![Action {
            activation_type: ActivationType::Protocol,
            action_content: "Read".to_string(),
            arguments: "https://example.com".to_string(),
        }])
        .toast_xml();
    let mut elem = String::new();
    elem += "\n                        ";
    elem += "<action content=\"Read\" activationType=\"protocol\" arguments=\"https://example.com\" />";
    elem += "\n                        ";
    assert!(xml.contains(&elem));
}

#[test]
fn notif_audio_loop_and_plain() {
    let xml = WinToastNotif::new().set_audio(Audio::LoopingAlarm2, Loop::True).toast_xml();
    assert!(xml.contains(
        "\n<audio src=\"ms-winsoundevent:Notification.Looping.Alarm2\" loop=\"true\" />"
    ));
    let xml = WinToastNotif::new().set_audio(Audio::Mail, Loop::False).toast_xml();
    assert!(xml.contains("\n<audio src=\"ms-winsoundevent:Notification.Mail\" />"));
}

#[test]
fn notif_audio_source_silences_audio() {
    let cmd = WinToastNotif::new()
        .set_audio(Audio::Default, Loop::True)
        .set_audio_source("C:\\Windows\\Media\\Ring05.wav")
        .show_command();
    assert!(cmd.contains("\n<audio silent=\"true\" />"));
    assert!(!cmd.contains("ms-winsoundevent"));
    assert!(cmd.contains(
        "$MediaPlayer.Source = [Windows.Media.Core.MediaSource]::CreateFromUri('C:\\Windows\\Media\\Ring05.wav')"
    ));
    assert!(cmd.contains("$MediaPlayer.Play()"));
}

#[test]
fn notif_app_id_is_used_raw() {
    let cmd = WinToastNotif::new().set_app_id("MSEdge").show_command();
    assert!(cmd.contains("$AppId = 'MSEdge'"));
    assert!(!cmd.contains(DEFAULT_APP_ID));
}

#[test]
fn notif_activation_type_as_str_values() {
    assert_eq!(ActivationType::Foreground.as_str(), "foreground");
    assert_eq!(ActivationType::Background.as_str(), "background");
    assert_eq!(ActivationType::Protocol.as_str(), "protocol");
    assert_eq!(ActivationType::System.as_str(), "system");
}

#[test]
fn notif_audio_as_str_values() {
    assert_eq!(Audio::Default.as_str(), "ms-winsoundevent:Notification.Default");
    assert_eq!(Audio::Remainder.as_str(), "ms-winsoundevent:Notification.Remainder");
    assert_eq!(Audio::LoopingCall1.as_str(), "ms-winsoundevent:Notification.Looping.Call");
    assert_eq!(Audio::LoopingAlarm10.as_str(), "ms-winsoundevent:Notification.Looping.Alarm10");
}
