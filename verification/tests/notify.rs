use win_toast_notify::{
    Action, ActivationType, Audio, CropCircle, Duration, ImagePlacement, Loop, Scenario,
    WinToastNotify,
};

const DEFAULT_APP_ID: &str =
    "{1AC14E77-02E7-4E5D-B744-2EB1AE5198B7}\\WindowsPowerShell\\v1.0\\powershell.exe";

#[test]
fn default_show_command_is_exact() {
    let cmd = WinToastNotify::new().show_command();
    let mut expected = String::from("$xml = @\"");
    expected += "\n            <toast>";
    expected += "\n                <visual>";
    expected += "\n                    <binding template=\"ToastGeneric\">";
    expected += "\n                        ";
    expected += "\n                        ";
    expected += "\n                        ";
    expected += "\n                        ";
    expected += "\n                        ";
    expected += "\n                    </binding>";
    expected += "\n                </visual>";
    expected += "\n                <actions>";
    expected += "\n                    ";
    expected += "\n                </actions>";
    expected += "\n                ";
    expected += "\n<audio src=\"ms-winsoundevent:Notification.Default\" />";
    expected += "\n            </toast>";
    expected += "\n            ";
    expected += "\n\"@";
    expected += "\n            $XmlDocument = [Windows.Data.Xml.Dom.XmlDocument, Windows.Data.Xml.Dom.XmlDocument, ContentType = WindowsRuntime]::New()";
    expected += "\n            $XmlDocument.loadXml($xml)";
    expected += "\n            $AppId = '";
    expected += DEFAULT_APP_ID;
    expected += "'";
    expected += "\n            ";
    expected += "[Windows.UI.Notifications.ToastNotificationManager, Windows.UI.Notifications, ContentType = WindowsRuntime]::CreateToastNotifier($AppId).Show($XmlDocument)";
    expected += "\n            ";
    assert_eq!(cmd, expected);
}

#[test]
fn default_equals_new() {
    let a = WinToastNotify::new().show_command();
    let b = WinToastNotify::default().show_command();
    assert_eq!(a, b);
}

#[test]
fn title_is_escaped() {
    let xml = WinToastNotify::new().set_title("Fish & <Chips>").toast_xml();
    assert!(xml.contains("\n<text>Fish &amp; &lt;Chips&gt;</text>"));
    assert!(!xml.contains("<Chips>"));
}

#[test]
fn escapes_all_reserved_characters() {
    let xml = WinToastNotify::new().set_title("<>\"'&\n\r").toast_xml();
    assert!(xml.contains("\n<text>&lt;&gt;&quot;&apos;&amp;&#xA;&#xD;</text>"));
}

#[test]
fn open_is_trimmed_and_escaped() {
    let xml = WinToastNotify::new()
        .set_open("  https://example.com/?a=1&b=2  ")
        .toast_xml();
    assert!(xml.contains(
        "<toast activationType=\"protocol\" launch=\"https://example.com/?a=1&amp;b=2\">"
    ));
}

#[test]
fn open_of_only_whitespace_becomes_empty() {
    let xml = WinToastNotify::new().set_open("   \t ").toast_xml();
    assert!(xml.contains("<toast activationType=\"protocol\" launch=\"\">"));
}

#[test]
fn duration_and_scenario_attributes() {
    let xml = WinToastNotify::new()
        .set_duration(Duration::Long)
        .set_scenario(Scenario::IncomingCall)
        .toast_xml();
    assert!(xml.contains("<toast duration=\"long\" scenario=\"incomingCall\">"));
    let xml = WinToastNotify::new().set_scenario(Scenario::Urgent).toast_xml();
    assert!(xml.contains("<toast scenario=\"urgent\">"));
}

#[test]
fn messages_render_in_order() {
    let xml = WinToastNotify::new()
        .set_messages(vec!["first line", "second & last"])
        .toast_xml();
    assert!(xml.contains("\n<text>first line</text>\n<text>second &amp; last</text>"));
}

#[test]
fn empty_messages_render_nothing() {
    let with_empty = WinToastNotify::new().set_messages(vec![]).toast_xml();
    let without = WinToastNotify::new().toast_xml();
    assert_eq!(with_empty, without);
}

#[test]
fn logo_crop_circle_variants() {
    let round = WinToastNotify::new()
        .set_logo(" C:\\pics\\me.png ", CropCircle::True)
        .toast_xml();
    assert!(round.contains(
        "\n<image placement=\"appLogoOverride\" hint-crop=\"circle\" src=\"C:\\pics\\me.png\"/>"
    ));
    let square = WinToastNotify::new()
        .set_logo("C:\\pics\\me.png", CropCircle::False)
        .toast_xml();
    assert!(square.contains("\n<image placement=\"appLogoOverride\" src=\"C:\\pics\\me.png\"/>"));
}

#[test]
fn image_placement_variants() {
    let top = WinToastNotify::new()
        .set_image("C:\\pics\\hero.jpg", ImagePlacement::Top)
        .toast_xml();
    assert!(top.contains("\n<image placement=\"hero\" src=\"C:\\pics\\hero.jpg\"/>"));
    let bottom = WinToastNotify::new()
        .set_image("C:\\pics\\hero.jpg", ImagePlacement::Bottom)
        .toast_xml();
    assert!(bottom.contains("\n<image src=\"C:\\pics\\hero.jpg\"/>"));
    assert!(!bottom.contains("placement=\"hero\""));
}

#[test]
fn actions_render_with_escaping_and_icon() {
    let xml = WinToastNotify::new()
        .set_actions(vec![Action {
            activation_type: ActivationType::Protocol,
            action_content: "Read & enjoy".to_string(),
            arguments: "https://example.com/?a=1&b=2".to_string(),
            image_url: Some(" C:\\icons\\book.png ".to_string()),
        }])
        .toast_xml();
    assert!(xml.contains(
        "\n<action content=\"Read &amp; enjoy\" activationType=\"protocol\" \
         arguments=\"https://example.com/?a=1&amp;b=2\" imageUri=\"C:\\icons\\book.png\" />"
    ));
}

#[test]
fn action_without_icon_has_empty_slot() {
    let xml = WinToastNotify::new()
        .set_actions(vec![
            Action {
                activation_type: ActivationType::Foreground,
                action_content: "Ok".to_string(),
                arguments: "go".to_string(),
                image_url: None,
            },
            Action {
                activation_type: ActivationType::Background,
                action_content: "Later".to_string(),
                arguments: "wait".to_string(),
                image_url: None,
            },
        ])
        .toast_xml();
    assert!(xml.contains(
        "\n<action content=\"Ok\" activationType=\"foreground\" arguments=\"go\"  />\
         \n<action content=\"Later\" activationType=\"background\" arguments=\"wait\"  />"
    ));
}

#[test]
fn audio_silent_variants() {
    let silent = WinToastNotify::new().set_audio(Audio::Silent, Loop::False).toast_xml();
    assert!(silent.contains("\n<audio silent=\"true\" />"));
    let custom = WinToastNotify::new()
        .set_audio(Audio::From(" C:\\media\\ring.wav ".to_string()), Loop::False)
        .show_command();
    assert!(custom.contains("\n<audio silent=\"true\" />"));
    assert!(custom.contains("$MediaPlayer.Source = [Windows.Media.Core.MediaSource]::CreateFromUri('C:\\media\\ring.wav')"));
    assert!(custom.contains("$MediaPlayer.Play()"));
}

#[test]
fn audio_loop_attribute() {
    let looping = WinToastNotify::new()
        .set_audio(Audio::WinLoopingAlarm5, Loop::True)
        .toast_xml();
    assert!(looping.contains(
        "\n<audio src=\"ms-winsoundevent:Notification.Looping.Alarm5\" loop=\"true\" />"
    ));
    let once = WinToastNotify::new().set_audio(Audio::WinMail, Loop::False).toast_xml();
    assert!(once.contains("\n<audio src=\"ms-winsoundevent:Notification.Mail\" />"));
}

#[test]
fn app_id_is_escaped_and_used() {
    let cmd = WinToastNotify::new().set_app_id("My 'App' & Co").show_command();
    assert!(cmd.contains("$AppId = 'My &apos;App&apos; &amp; Co'"));
}

#[test]
fn progress_blocks_in_show_command() {
    let cmd = WinToastNotify::new()
        .set_progress("weekly-playlist", "Weekly playlist", "Downloading...", "0.3", "3/10 songs")
        .show_command();
    assert!(cmd.contains("title=\"{progressTitle}\""));
    assert!(cmd.contains("value=\"{progressValue}\""));
    assert!(cmd.contains("valueStringOverride=\"{progressValueString}\""));
    assert!(cmd.contains("status=\"{progressStatus}\""));
    assert!(cmd.contains("$ToastNotification.Tag = 'weekly-playlist'"));
    assert!(cmd.contains("$Dictionary.Add('progressTitle', 'Weekly playlist')"));
    assert!(cmd.contains("$Dictionary.Add('progressValue', '0.3')"));
    assert!(cmd.contains("$Dictionary.Add('progressValueString', '3/10 songs')"));
    assert!(cmd.contains("$Dictionary.Add('progressStatus', 'Downloading...')"));
    assert!(cmd.contains("$ToastNotification.Data.SequenceNumber = 1"));
    assert!(cmd.contains("CreateToastNotifier($AppId).Show($ToastNotification)"));
    assert!(!cmd.contains("Show($XmlDocument)"));
}

#[test]
fn progress_update_command_is_exact() {
    let cmd = WinToastNotify::progress_update_command(None, "tag1", "0.25", "1/4 done");
    let mut expected = String::new();
    expected += "\n            $Dictionary = [System.Collections.Generic.Dictionary[String, String]]::New()";
    expected += "\n            $Dictionary.Add('progressValue', 0.25)";
    expected += "\n            $Dictionary.Add('progressValueString', \"1/4 done\")";
    expected += "\n            $NotificationData = [Windows.UI.Notifications.NotificationData]::New($Dictionary)";
    expected += "\n            $NotificationData.SequenceNumber = 2";
    expected += "\n            $AppId = '";
    expected += DEFAULT_APP_ID;
    expected += "'";
    expected += "\n            $Notifier = [Windows.UI.Notifications.ToastNotificationManager, Windows.UI.Notifications, ContentType = WindowsRuntime]::CreateToastNotifier($AppId)";
    expected += "\n            $Notifier.Update($NotificationData, 'tag1')";
    expected += "\n            ";
    assert_eq!(cmd, expected);
}

#[test]
fn progress_update_command_with_app_id() {
    let cmd = WinToastNotify::progress_update_command(Some("MSEdge"), "dl", "0.9", "9/10");
    assert!(cmd.contains("$AppId = 'MSEdge'"));
    assert!(cmd.contains("$Dictionary.Add('progressValue', 0.9)"));
    assert!(cmd.contains("$Notifier.Update($NotificationData, 'dl')"));
    assert!(!cmd.contains(DEFAULT_APP_ID));
}

#[test]
fn progress_complete_command_is_exact() {
    let cmd = WinToastNotify::progress_complete_command(None, "tag1", "Completed", "10/10 songs");
    let mut expected = String::new();
    expected += "\n            $Dictionary = [System.Collections.Generic.Dictionary[String, String]]::New()";
    expected += "\n            $Dictionary.Add('progressStatus', 'Completed')";
    expected += "\n            $Dictionary.Add('progressValue', 1)";
    expected += "\n            $Dictionary.Add('progressValueString', \"10/10 songs\")";
    expected += "\n            $NotificationData = [Windows.UI.Notifications.NotificationData]::New($Dictionary)";
    expected += "\n            $NotificationData.SequenceNumber = 2";
    expected += "\n            $AppId = '";
    expected += DEFAULT_APP_ID;
    expected += "'";
    expected += "\n            $Notifier = [Windows.UI.Notifications.ToastNotificationManager, Windows.UI.Notifications, ContentType = WindowsRuntime]::CreateToastNotifier($AppId)";
    expected += "\n            $Notifier.Update($NotificationData, 'tag1')";
    expected += "\n            ";
    assert_eq!(cmd, expected);
}

#[test]
fn activation_type_as_str_values() {
    assert_eq!(ActivationType::Foreground.as_str(), "foreground");
    assert_eq!(ActivationType::Background.as_str(), "background");
    assert_eq!(ActivationType::Protocol.as_str(), "protocol");
    assert_eq!(ActivationType::System.as_str(), "system");
}

#[test]
fn audio_as_str_values() {
    assert_eq!(Audio::WinDefault.as_str(), "ms-winsoundevent:Notification.Default");
    assert_eq!(Audio::WinSMS.as_str(), "ms-winsoundevent:Notification.SMS");
    assert_eq!(Audio::WinLoopingAlarm1.as_str(), "ms-winsoundevent:Notification.Looping.Alarm");
    assert_eq!(
        Audio::WinLoopingCall10.as_str(),
        "ms-winsoundevent:Notification.Looping.Call10"
    );
    assert_eq!(Audio::Silent.as_str(), "");
    assert_eq!(Audio::From("C:\\a.wav".to_string()).as_str(), "C:\\a.wav");
}
