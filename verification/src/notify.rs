use vstd::prelude::*;
use vstd::string::StringExecFns;

use crate::escape::{escape_attr, escape_attribute};
use crate::trim::{trim_chars, trim_str};

verus! {

/// A toast notification under construction: every field is optional or has
/// a default, and the setters fill them one by one.
pub struct WinToastNotify {
    pub app_id: Option<String>,
    pub duration: Duration,
    pub scenario: Scenario,
    pub open: Option<String>,
    pub title: Option<String>,
    pub messages: Option<Vec<String>>,
    pub logo: Option<String>,
    pub logo_circle: CropCircle,
    pub image: Option<String>,
    pub image_placement: ImagePlacement,
    pub actions: Option<Vec<Action>>,
    pub progress: Option<Progress>,
    pub audio: Option<Audio>,
    pub audio_loop: Loop,
}

/// How long the notification stays on screen.
pub enum Duration {
    Short,
    Long,
}

/// The scenario the toast is used for, like an alarm or reminder.
pub enum Scenario {
    Default,
    Reminder,
    Alarm,
    IncomingCall,
    Urgent,
}

/// A button on the notification.
pub struct Action {
    pub activation_type: ActivationType,
    pub action_content: String,
    pub arguments: String,
    pub image_url: Option<String>,
}

/// What pressing a button activates.
pub enum ActivationType {
    Protocol,
    System,
    Background,
    Foreground,
}

/// Whether the logo is cropped into a circle.
pub enum CropCircle {
    True,
    False,
}

/// Where the large image is placed.
pub enum ImagePlacement {
    Top,
    Bottom,
}

/// The state of a progress bar shown on the notification. The `value`
/// field holds the filled fraction as the decimal text handed to the
/// platform, such as `0.45`.
pub struct Progress {
    pub tag: String,
    pub title: String,
    pub status: String,
    pub value: String,
    pub value_string: String,
}

/// The notification sound.
pub enum Audio {
    From(String),
    Silent,
    WinDefault,
    WinIM,
    WinMail,
    WinRemainder,
    WinSMS,
    WinLoopingAlarm1,
    WinLoopingAlarm2,
    WinLoopingAlarm3,
    WinLoopingAlarm4,
    WinLoopingAlarm5,
    WinLoopingAlarm6,
    WinLoopingAlarm7,
    WinLoopingAlarm8,
    WinLoopingAlarm9,
    WinLoopingAlarm10,
    WinLoopingCall1,
    WinLoopingCall2,
    WinLoopingCall3,
    WinLoopingCall4,
    WinLoopingCall5,
    WinLoopingCall6,
    WinLoopingCall7,
    WinLoopingCall8,
    WinLoopingCall9,
    WinLoopingCall10,
}

/// Whether the sound is repeated while the notification is shown.
pub enum Loop {
    True,
    False,
}

/// The state `new` returns: nothing set, a short duration, no scenario,
/// the image at the top, the default system sound played once.
pub open spec fn is_initial(n: WinToastNotify) -> bool {
    &&& n.app_id is None
    &&& n.open is None
    &&& n.duration is Short
    &&& n.scenario is Default
    &&& n.title is None
    &&& n.messages is None
    &&& n.logo is None
    &&& n.logo_circle is False
    &&& n.image is None
    &&& n.image_placement is Top
    &&& n.actions is None
    &&& n.audio matches Some(Audio::WinDefault)
    &&& n.audio_loop is False
    &&& n.progress is None
}

impl Default for WinToastNotify {
    fn default() -> (r: Self)
        ensures
            is_initial(r),
    {
        Self::new()
    }
}

impl WinToastNotify {
    pub fn new() -> (r: Self)
        ensures
            is_initial(r),
    {
        Self {
            app_id: None,
            open: None,
            duration: Duration::Short,
            scenario: Scenario::Default,
            title: None,
            messages: None,
            logo: None,
            logo_circle: CropCircle::False,
            image: None,
            image_placement: ImagePlacement::Top,
            actions: None,
            audio: Some(Audio::WinDefault),
            audio_loop: Loop::False,
            progress: None,
        }
    }

    /// Set the application id the notification is delivered under; the
    /// text is escaped for use inside the generated script.
    pub fn set_app_id(self, id: &str) -> (r: Self)
        ensures
            r.app_id matches Some(v) && v@ == escape_attr(id@),
            r == (WinToastNotify { app_id: r.app_id, ..self }),
    {
        WinToastNotify { app_id: Some(escape_attribute(id)), ..self }
    }

    /// Set how long the notification stays on screen.
    pub fn set_duration(self, duration: Duration) -> (r: Self)
        ensures
            r == (WinToastNotify { duration, ..self }),
    {
        WinToastNotify { duration, ..self }
    }

    /// Set the scenario the toast is used for.
    pub fn set_scenario(self, scenario: Scenario) -> (r: Self)
        ensures
            r == (WinToastNotify { scenario, ..self }),
    {
        WinToastNotify { scenario, ..self }
    }

    /// Set the link or path opened when the notification is clicked; the
    /// text is trimmed and escaped.
    pub fn set_open(self, url_or_path: &str) -> (r: Self)
        ensures
            r.open matches Some(v) && v@ == escape_attr(trim_chars(url_or_path@)),
            r == (WinToastNotify { open: r.open, ..self }),
    {
        WinToastNotify { open: Some(escape_attribute(trim_str(url_or_path))), ..self }
    }

    /// Set the title; the text is escaped.
    pub fn set_title(self, title: &str) -> (r: Self)
        ensures
            r.title matches Some(v) && v@ == escape_attr(title@),
            r == (WinToastNotify { title: r.title, ..self }),
    {
        WinToastNotify { title: Some(escape_attribute(title)), ..self }
    }

    /// Set the body lines; each is escaped. The platform shows at most two
    /// lines, though each may contain line breaks.
    pub fn set_messages(self, messages: Vec<&str>) -> (r: Self)
        ensures
            r.messages matches Some(v) && {
                &&& v@.len() == messages@.len()
                &&& forall|i: int|
                    0 <= i < v@.len() ==> #[trigger] v@[i]@ == escape_attr(messages@[i]@)
            },
            r == (WinToastNotify { messages: r.messages, ..self }),
    {
        let mut escaped: Vec<String> = Vec::new();
        let mut i: usize = 0;
        while i < messages.len()
            invariant
                i <= messages.len(),
                escaped@.len() == i,
                forall|j: int|
                    0 <= j < i ==> #[trigger] escaped@[j]@ == escape_attr(messages@[j]@),
            decreases messages.len() - i,
        {
            escaped.push(escape_attribute(messages[i]));
            i = i + 1;
        }
        WinToastNotify { messages: Some(escaped), ..self }
    }

    /// Set the logo shown beside the text, and whether it is cropped into
    /// a circle; the path is trimmed and escaped.
    pub fn set_logo(self, path: &str, hint_crop: CropCircle) -> (r: Self)
        ensures
            r.logo matches Some(v) && v@ == escape_attr(trim_chars(path@)),
            r == (WinToastNotify { logo: r.logo, logo_circle: hint_crop, ..self }),
    {
        WinToastNotify {
            logo: Some(escape_attribute(trim_str(path))),
            logo_circle: hint_crop,
            ..self
        }
    }

    /// Set the large image and where it is placed; the path is trimmed and
    /// escaped.
    pub fn set_image(self, path: &str, position: ImagePlacement) -> (r: Self)
        ensures
            r.image matches Some(v) && v@ == escape_attr(trim_chars(path@)),
            r == (WinToastNotify { image: r.image, image_placement: position, ..self }),
    {
        WinToastNotify {
            image: Some(escape_attribute(trim_str(path))),
            image_placement: position,
            ..self
        }
    }

    /// Set the buttons; the platform shows at most five. Their texts are
    /// escaped when the payload is rendered, not here.
    pub fn set_actions(self, actions: Vec<Action>) -> (r: Self)
        ensures
            r == (WinToastNotify { actions: Some(actions), ..self }),
    {
        WinToastNotify { actions: Some(actions), ..self }
    }

    /// Set the progress bar: the tag later updates are keyed by, the bar's
    /// title, a status line, the filled fraction as decimal text, and the
    /// text shown in place of a percentage.
    pub fn set_progress(
        self,
        tag: &str,
        title: &str,
        status: &str,
        value: &str,
        value_string: &str,
    ) -> (r: Self)
        ensures
            r.progress matches Some(p) && {
                &&& p.tag@ == tag@
                &&& p.title@ == title@
                &&& p.status@ == status@
                &&& p.value@ == value@
                &&& p.value_string@ == value_string@
            },
            r == (WinToastNotify { progress: r.progress, ..self }),
    {
        WinToastNotify {
            progress: Some(
                Progress {
                    tag: tag.to_owned(),
                    title: title.to_owned(),
                    status: status.to_owned(),
                    value: value.to_owned(),
                    value_string: value_string.to_owned(),
                },
            ),
            ..self
        }
    }

    /// Set the sound and whether it loops.
    pub fn set_audio(self, audio: Audio, audio_loop: Loop) -> (r: Self)
        ensures
            r == (WinToastNotify { audio: Some(audio), audio_loop, ..self }),
    {
        WinToastNotify { audio: Some(audio), audio_loop, ..self }
    }
}

/// The value of the `activationType` attribute for each activation kind.
pub open spec fn activation_str(t: ActivationType) -> Seq<char> {
    match t {
        ActivationType::Foreground => "foreground"@,
        ActivationType::Background => "background"@,
        ActivationType::Protocol => "protocol"@,
        ActivationType::System => "system"@,
    }
}

impl ActivationType {
    pub fn as_str(&self) -> (r: &str)
        ensures
            r@ == activation_str(*self),
    {
        match self {
            ActivationType::Foreground => "foreground",
            ActivationType::Background => "background",
            ActivationType::Protocol => "protocol",
            ActivationType::System => "system",
        }
    }
}

/// The sound URI each audio choice stands for: a custom source is its own
/// text, silence is empty, and the rest are the system sound events.
pub open spec fn audio_uri(a: Audio) -> Seq<char> {
    match a {
        Audio::From(url) => url@,
        Audio::Silent => ""@,
        Audio::WinDefault => "ms-winsoundevent:Notification.Default"@,
        Audio::WinIM => "ms-winsoundevent:Notification.IM"@,
        Audio::WinMail => "ms-winsoundevent:Notification.Mail"@,
        Audio::WinRemainder => "ms-winsoundevent:Notification.Remainder"@,
        Audio::WinSMS => "ms-winsoundevent:Notification.SMS"@,
        Audio::WinLoopingAlarm1 => "ms-winsoundevent:Notification.Looping.Alarm"@,
        Audio::WinLoopingAlarm2 => "ms-winsoundevent:Notification.Looping.Alarm2"@,
        Audio::WinLoopingAlarm3 => "ms-winsoundevent:Notification.Looping.Alarm3"@,
        Audio::WinLoopingAlarm4 => "ms-winsoundevent:Notification.Looping.Alarm4"@,
        Audio::WinLoopingAlarm5 => "ms-winsoundevent:Notification.Looping.Alarm5"@,
        Audio::WinLoopingAlarm6 => "ms-winsoundevent:Notification.Looping.Alarm6"@,
        Audio::WinLoopingAlarm7 => "ms-winsoundevent:Notification.Looping.Alarm7"@,
        Audio::WinLoopingAlarm8 => "ms-winsoundevent:Notification.Looping.Alarm8"@,
        Audio::WinLoopingAlarm9 => "ms-winsoundevent:Notification.Looping.Alarm9"@,
        Audio::WinLoopingAlarm10 => "ms-winsoundevent:Notification.Looping.Alarm10"@,
        Audio::WinLoopingCall1 => "ms-winsoundevent:Notification.Looping.Call"@,
        Audio::WinLoopingCall2 => "ms-winsoundevent:Notification.Looping.Call2"@,
        Audio::WinLoopingCall3 => "ms-winsoundevent:Notification.Looping.Call3"@,
        Audio::WinLoopingCall4 => "ms-winsoundevent:Notification.Looping.Call4"@,
        Audio::WinLoopingCall5 => "ms-winsoundevent:Notification.Looping.Call5"@,
        Audio::WinLoopingCall6 => "ms-winsoundevent:Notification.Looping.Call6"@,
        Audio::WinLoopingCall7 => "ms-winsoundevent:Notification.Looping.Call7"@,
        Audio::WinLoopingCall8 => "ms-winsoundevent:Notification.Looping.Call8"@,
        Audio::WinLoopingCall9 => "ms-winsoundevent:Notification.Looping.Call9"@,
        Audio::WinLoopingCall10 => "ms-winsoundevent:Notification.Looping.Call10"@,
    }
}

impl Audio {
    pub fn as_str(&self) -> (r: &str)
        ensures
            r@ == audio_uri(*self),
    {
        match self {
            Audio::From(url) => url.as_str(),
            Audio::Silent => "",
            Audio::WinDefault => "ms-winsoundevent:Notification.Default",
            Audio::WinIM => "ms-winsoundevent:Notification.IM",
            Audio::WinMail => "ms-winsoundevent:Notification.Mail",
            Audio::WinRemainder => "ms-winsoundevent:Notification.Remainder",
            Audio::WinSMS => "ms-winsoundevent:Notification.SMS",
            Audio::WinLoopingAlarm1 => "ms-winsoundevent:Notification.Looping.Alarm",
            Audio::WinLoopingAlarm2 => "ms-winsoundevent:Notification.Looping.Alarm2",
            Audio::WinLoopingAlarm3 => "ms-winsoundevent:Notification.Looping.Alarm3",
            Audio::WinLoopingAlarm4 => "ms-winsoundevent:Notification.Looping.Alarm4",
            Audio::WinLoopingAlarm5 => "ms-winsoundevent:Notification.Looping.Alarm5",
            Audio::WinLoopingAlarm6 => "ms-winsoundevent:Notification.Looping.Alarm6",
            Audio::WinLoopingAlarm7 => "ms-winsoundevent:Notification.Looping.Alarm7",
            Audio::WinLoopingAlarm8 => "ms-winsoundevent:Notification.Looping.Alarm8",
            Audio::WinLoopingAlarm9 => "ms-winsoundevent:Notification.Looping.Alarm9",
            Audio::WinLoopingAlarm10 => "ms-winsoundevent:Notification.Looping.Alarm10",
            Audio::WinLoopingCall1 => "ms-winsoundevent:Notification.Looping.Call",
            Audio::WinLoopingCall2 => "ms-winsoundevent:Notification.Looping.Call2",
            Audio::WinLoopingCall3 => "ms-winsoundevent:Notification.Looping.Call3",
            Audio::WinLoopingCall4 => "ms-winsoundevent:Notification.Looping.Call4",
            Audio::WinLoopingCall5 => "ms-winsoundevent:Notification.Looping.Call5",
            Audio::WinLoopingCall6 => "ms-winsoundevent:Notification.Looping.Call6",
            Audio::WinLoopingCall7 => "ms-winsoundevent:Notification.Looping.Call7",
            Audio::WinLoopingCall8 => "ms-winsoundevent:Notification.Looping.Call8",
            Audio::WinLoopingCall9 => "ms-winsoundevent:Notification.Looping.Call9",
            Audio::WinLoopingCall10 => "ms-winsoundevent:Notification.Looping.Call10",
        }
    }
}

/// The `launch` attribute of the toast element: present exactly when a
/// link or path to open was set.
pub open spec fn launch_attr(open: Option<String>) -> Seq<char> {
    match open {
        Some(url_or_path) => " activationType=\"protocol\" launch=\""@ + url_or_path@ + "\""@,
        None => Seq::empty(),
    }
}

/// The `duration` attribute of the toast element.
pub open spec fn duration_attr(d: Duration) -> Seq<char> {
    match d {
        Duration::Short => ""@,
        Duration::Long => " duration=\"long\""@,
    }
}

/// The `scenario` attribute of the toast element.
pub open spec fn scenario_attr(sc: Scenario) -> Seq<char> {
    match sc {
        Scenario::Default => ""@,
        Scenario::Reminder => " scenario=\"reminder\""@,
        Scenario::Alarm => " scenario=\"alarm\""@,
        Scenario::IncomingCall => " scenario=\"incomingCall\""@,
        Scenario::Urgent => " scenario=\"urgent\""@,
    }
}

/// The image element for the logo, empty when no logo was set.
pub open spec fn logo_elem(logo: Option<String>, crop: CropCircle) -> Seq<char> {
    match logo {
        Some(l) => {
            if crop is True {
                "\n<image placement=\"appLogoOverride\" hint-crop=\"circle\" src=\""@ + l@
                    + "\"/>"@
            } else {
                "\n<image placement=\"appLogoOverride\" src=\""@ + l@ + "\"/>"@
            }
        },
        None => Seq::empty(),
    }
}

/// The text element for the title, empty when no title was set.
pub open spec fn title_elem(title: Option<String>) -> Seq<char> {
    match title {
        Some(t) => "\n<text>"@ + t@ + "</text>"@,
        None => Seq::empty(),
    }
}

/// One text element per body line, in order.
pub open spec fn message_elems(ms: Seq<String>) -> Seq<char>
    decreases ms.len(),
{
    if ms.len() == 0 {
        Seq::empty()
    } else {
        message_elems(ms.drop_last()) + "\n<text>"@ + ms.last()@ + "</text>"@
    }
}

/// The text elements for the body lines, empty when none were set.
pub open spec fn messages_part(ms: Option<Vec<String>>) -> Seq<char> {
    match ms {
        Some(v) => message_elems(v@),
        None => Seq::empty(),
    }
}

/// The image element for the large image, empty when none was set.
pub open spec fn image_elem(image: Option<String>, placement: ImagePlacement) -> Seq<char> {
    match image {
        Some(img) => {
            if placement is Top {
                "\n<image placement=\"hero\" src=\""@ + img@ + "\"/>"@
            } else {
                "\n<image src=\""@ + img@ + "\"/>"@
            }
        },
        None => Seq::empty(),
    }
}

/// The progress element: its attributes are bound to the notification
/// data dictionary by name, so the element itself is fixed text.
pub open spec fn progress_elem(p: Option<Progress>) -> Seq<char> {
    match p {
        Some(_) => "
                    <progress
                        title=\"{progressTitle}\"
                        value=\"{progressValue}\"
                        valueStringOverride=\"{progressValueString}\"
                        status=\"{progressStatus}\"/>
                    "@,
        None => ""@,
    }
}

/// The `imageUri` attribute of a button, empty when the button has no
/// icon; the path is trimmed and escaped here, at rendering time.
pub open spec fn image_uri_attr(url: Option<String>) -> Seq<char> {
    match url {
        Some(u) => "imageUri=\""@ + escape_attr(trim_chars(u@)) + "\""@,
        None => Seq::empty(),
    }
}

/// The action element for one button; its text and arguments are escaped
/// here, at rendering time.
pub open spec fn action_elem(a: Action) -> Seq<char> {
    "\n<action content=\""@ + escape_attr(a.action_content@) + "\" activationType=\""@
        + activation_str(a.activation_type) + "\" arguments=\""@ + escape_attr(a.arguments@)
        + "\" "@ + image_uri_attr(a.image_url) + " />"@
}

/// One action element per button, in order.
pub open spec fn action_elems(s: Seq<Action>) -> Seq<char>
    decreases s.len(),
{
    if s.len() == 0 {
        Seq::empty()
    } else {
        action_elems(s.drop_last()) + action_elem(s.last())
    }
}

/// The action elements for the buttons, empty when none were set.
pub open spec fn actions_part(a: Option<Vec<Action>>) -> Seq<char> {
    match a {
        Some(v) => action_elems(v@),
        None => Seq::empty(),
    }
}

/// The audio element: silent when no sound, an explicit silence, or a
/// custom source was chosen (a custom source is played separately), and
/// the sound's URI with an optional loop attribute otherwise.
pub open spec fn audio_elem(audio: Option<Audio>, lp: Loop) -> Seq<char> {
    match audio {
        Some(a) => {
            if a is From || a is Silent {
                "\n<audio silent=\"true\" />"@
            } else if lp is False {
                "\n<audio src=\""@ + audio_uri(a) + "\" />"@
            } else {
                "\n<audio src=\""@ + audio_uri(a) + "\" loop=\"true\" />"@
            }
        },
        None => "\n<audio silent=\"true\" />"@,
    }
}

/// The application id the script binds the notifier to: the one that was
/// set, or the stock shell id that is always registered.
pub open spec fn default_app_id() -> Seq<char> {
    "{1AC14E77-02E7-4E5D-B744-2EB1AE5198B7}\\WindowsPowerShell\\v1.0\\powershell.exe"@
}

/// The set application id, or the default one.
pub open spec fn app_id_part(id: Option<String>) -> Seq<char> {
    match id {
        Some(v) => v@,
        None => default_app_id(),
    }
}

/// The script lines that show the toast: when a progress bar was set they
/// attach the tagged notification data first, otherwise they show the
/// document directly.
pub open spec fn show_part(p: Option<Progress>) -> Seq<char> {
    match p {
        Some(progress) => "
                        $ToastNotification = [Windows.UI.Notifications.ToastNotification, Windows.UI.Notifications, ContentType = WindowsRuntime]::New($XmlDocument)
                        $ToastNotification.Tag = '"@ + progress.tag@ + "'
                        $Dictionary = [System.Collections.Generic.Dictionary[String, String]]::New()
                        $Dictionary.Add('progressTitle', '"@ + progress.title@ + "')
                        $Dictionary.Add('progressValue', '"@ + progress.value@ + "')
                        $Dictionary.Add('progressValueString', '"@ + progress.value_string@
            + "')
                        $Dictionary.Add('progressStatus', '"@ + progress.status@ + "')
                        $ToastNotification.Data = [Windows.UI.Notifications.NotificationData]::New($Dictionary)
                        $ToastNotification.Data.SequenceNumber = 1
                        [Windows.UI.Notifications.ToastNotificationManager, Windows.UI.Notifications, ContentType = WindowsRuntime]::CreateToastNotifier($AppId).Show($ToastNotification)
                        "@,
        None => "[Windows.UI.Notifications.ToastNotificationManager, Windows.UI.Notifications, ContentType = WindowsRuntime]::CreateToastNotifier($AppId).Show($XmlDocument)"@,
    }
}

/// The script lines that play a custom sound source, empty otherwise; the
/// source is trimmed and escaped here, at rendering time.
pub open spec fn media_part(audio: Option<Audio>) -> Seq<char> {
    match audio {
        Some(Audio::From(url)) => "
                $MediaPlayer = [Windows.Media.Playback.MediaPlayer, Windows.Media, ContentType = WindowsRuntime]::New()
                $MediaPlayer.Source = [Windows.Media.Core.MediaSource]::CreateFromUri('"@
            + escape_attr(trim_chars(url@)) + "')
                $MediaPlayer.Play()
                "@,
        _ => Seq::empty(),
    }
}

/// The toast XML document for a configuration: the toast element with its
/// attributes, the visual binding with logo, title, body lines, image and
/// progress bar, then the buttons and the audio element.
pub open spec fn spec_toast_xml(n: WinToastNotify) -> Seq<char> {
    "
            <toast"@ + launch_attr(n.open) + duration_attr(n.duration) + scenario_attr(n.scenario)
        + ">
                <visual>
                    <binding template=\"ToastGeneric\">
                        "@ + logo_elem(n.logo, n.logo_circle) + "
                        "@ + title_elem(n.title) + "
                        "@ + messages_part(n.messages) + "
                        "@ + image_elem(n.image, n.image_placement) + "
                        "@ + progress_elem(n.progress) + "
                    </binding>
                </visual>
                <actions>
                    "@ + actions_part(n.actions) + "
                </actions>
                "@ + audio_elem(n.audio, n.audio_loop) + "
            </toast>
            "@
}

/// The whole script that shows the toast: the XML document in a verbatim
/// block, the lines that load it and bind the notifier to the application
/// id, the show lines, and, for a custom sound source, the player lines.
pub open spec fn spec_show_command(n: WinToastNotify) -> Seq<char> {
    "$xml = @\""@ + spec_toast_xml(n) + "\n\"@"@ + "
            $XmlDocument = [Windows.Data.Xml.Dom.XmlDocument, Windows.Data.Xml.Dom.XmlDocument, ContentType = WindowsRuntime]::New()
            $XmlDocument.loadXml($xml)
            $AppId = '"@ + app_id_part(n.app_id) + "'
            "@ + show_part(n.progress) + "
            "@ + media_part(n.audio)
}

/// The script that patches the progress value and its display text on the
/// notification with the given tag.
pub open spec fn spec_progress_update_command(
    app_id: Option<&str>,
    tag: &str,
    value: &str,
    value_string: &str,
) -> Seq<char> {
    "
            $Dictionary = [System.Collections.Generic.Dictionary[String, String]]::New()
            $Dictionary.Add('progressValue', "@ + value@ + ")
            $Dictionary.Add('progressValueString', \""@ + value_string@ + "\")
            $NotificationData = [Windows.UI.Notifications.NotificationData]::New($Dictionary)
            $NotificationData.SequenceNumber = 2
            $AppId = '"@ + (match app_id {
        Some(id) => id@,
        None => default_app_id(),
    }) + "'
            $Notifier = [Windows.UI.Notifications.ToastNotificationManager, Windows.UI.Notifications, ContentType = WindowsRuntime]::CreateToastNotifier($AppId)
            $Notifier.Update($NotificationData, '"@ + tag@ + "')
            "@
}

/// The script that sets the progress bar to done: a new status, a value
/// of one, and a final display text.
pub open spec fn spec_progress_complete_command(
    app_id: Option<&str>,
    tag: &str,
    status: &str,
    value_string: &str,
) -> Seq<char> {
    "
            $Dictionary = [System.Collections.Generic.Dictionary[String, String]]::New()
            $Dictionary.Add('progressStatus', '"@ + status@ + "')
            $Dictionary.Add('progressValue', 1)
            $Dictionary.Add('progressValueString', \""@ + value_string@ + "\")
            $NotificationData = [Windows.UI.Notifications.NotificationData]::New($Dictionary)
            $NotificationData.SequenceNumber = 2
            $AppId = '"@ + (match app_id {
        Some(id) => id@,
        None => default_app_id(),
    }) + "'
            $Notifier = [Windows.UI.Notifications.ToastNotificationManager, Windows.UI.Notifications, ContentType = WindowsRuntime]::CreateToastNotifier($AppId)
            $Notifier.Update($NotificationData, '"@ + tag@ + "')
            "@
}

pub(crate) fn launch_attr_string(open: &Option<String>) -> (r: String)
    ensures
        r@ == launch_attr(*open),
{
    match open {
        Some(url_or_path) => {
            let mut s = " activationType=\"protocol\" launch=\"".to_owned();
            s.append(url_or_path.as_str());
            s.append("\"");
            s
        },
        None => String::new(),
    }
}

fn duration_attr_str(d: &Duration) -> (r: &'static str)
    ensures
        r@ == duration_attr(*d),
{
    match d {
        Duration::Short => "",
        Duration::Long => " duration=\"long\"",
    }
}

fn scenario_attr_str(sc: &Scenario) -> (r: &'static str)
    ensures
        r@ == scenario_attr(*sc),
{
    match sc {
        Scenario::Default => "",
        Scenario::Reminder => " scenario=\"reminder\"",
        Scenario::Alarm => " scenario=\"alarm\"",
        Scenario::IncomingCall => " scenario=\"incomingCall\"",
        Scenario::Urgent => " scenario=\"urgent\"",
    }
}

fn logo_elem_string(logo: &Option<String>, crop: &CropCircle) -> (r: String)
    ensures
        r@ == logo_elem(*logo, *crop),
{
    match logo {
        Some(l) => {
            match crop {
                CropCircle::True => {
                    let mut s =
                        "\n<image placement=\"appLogoOverride\" hint-crop=\"circle\" src=\"".to_owned();
                    s.append(l.as_str());
                    s.append("\"/>");
                    s
                },
                CropCircle::False => {
                    let mut s = "\n<image placement=\"appLogoOverride\" src=\"".to_owned();
                    s.append(l.as_str());
                    s.append("\"/>");
                    s
                },
            }
        },
        None => String::new(),
    }
}

pub(crate) fn title_elem_string(title: &Option<String>) -> (r: String)
    ensures
        r@ == title_elem(*title),
{
    match title {
        Some(t) => {
            let mut s = "\n<text>".to_owned();
            s.append(t.as_str());
            s.append("</text>");
            s
        },
        None => String::new(),
    }
}

pub(crate) fn messages_part_string(messages: &Option<Vec<String>>) -> (r: String)
    ensures
        r@ == messages_part(*messages),
{
    match messages {
        Some(ms) => {
            let mut s = String::new();
            let mut i: usize = 0;
            while i < ms.len()
                invariant
                    i <= ms.len(),
                    s@ == message_elems(ms@.take(i as int)),
                decreases ms.len() - i,
            {
                s.append("\n<text>");
                s.append(ms[i].as_str());
                s.append("</text>");
                proof {
                    assert(ms@.take(i as int + 1).drop_last() =~= ms@.take(i as int));
                    assert(ms@.take(i as int + 1).last() == ms@[i as int]);
                }
                i = i + 1;
            }
            proof {
                assert(ms@.take(ms@.len() as int) =~= ms@);
            }
            s
        },
        None => String::new(),
    }
}

fn image_elem_string(image: &Option<String>, placement: &ImagePlacement) -> (r: String)
    ensures
        r@ == image_elem(*image, *placement),
{
    match image {
        Some(img) => {
            match placement {
                ImagePlacement::Top => {
                    let mut s = "\n<image placement=\"hero\" src=\"".to_owned();
                    s.append(img.as_str());
                    s.append("\"/>");
                    s
                },
                ImagePlacement::Bottom => {
                    let mut s = "\n<image src=\"".to_owned();
                    s.append(img.as_str());
                    s.append("\"/>");
                    s
                },
            }
        },
        None => String::new(),
    }
}

fn progress_elem_str(p: &Option<Progress>) -> (r: &'static str)
    ensures
        r@ == progress_elem(*p),
{
    match p {
        Some(_) => "
                    <progress
                        title=\"{progressTitle}\"
                        value=\"{progressValue}\"
                        valueStringOverride=\"{progressValueString}\"
                        status=\"{progressStatus}\"/>
                    ",
        None => "",
    }
}

fn image_uri_attr_string(url: &Option<String>) -> (r: String)
    ensures
        r@ == image_uri_attr(*url),
{
    match url {
        Some(u) => {
            let mut s = "imageUri=\"".to_owned();
            let escaped = escape_attribute(trim_str(u.as_str()));
            s.append(escaped.as_str());
            s.append("\"");
            s
        },
        None => String::new(),
    }
}

fn action_elem_string(a: &Action) -> (r: String)
    ensures
        r@ == action_elem(*a),
{
    let mut s = "\n<action content=\"".to_owned();
    let content = escape_attribute(a.action_content.as_str());
    s.append(content.as_str());
    s.append("\" activationType=\"");
    s.append(a.activation_type.as_str());
    s.append("\" arguments=\"");
    let arguments = escape_attribute(a.arguments.as_str());
    s.append(arguments.as_str());
    s.append("\" ");
    let image_uri = image_uri_attr_string(&a.image_url);
    s.append(image_uri.as_str());
    s.append(" />");
    s
}

fn actions_part_string(actions: &Option<Vec<Action>>) -> (r: String)
    ensures
        r@ == actions_part(*actions),
{
    match actions {
        Some(acts) => {
            let mut s = String::new();
            let mut i: usize = 0;
            while i < acts.len()
                invariant
                    i <= acts.len(),
                    s@ == action_elems(acts@.take(i as int)),
                decreases acts.len() - i,
            {
                let elem = action_elem_string(&acts[i]);
                s.append(elem.as_str());
                proof {
                    assert(acts@.take(i as int + 1).drop_last() =~= acts@.take(i as int));
                    assert(acts@.take(i as int + 1).last() == acts@[i as int]);
                }
                i = i + 1;
            }
            proof {
                assert(acts@.take(acts@.len() as int) =~= acts@);
            }
            s
        },
        None => String::new(),
    }
}

fn audio_elem_string(audio: &Option<Audio>, lp: &Loop) -> (r: String)
    ensures
        r@ == audio_elem(*audio, *lp),
{
    match audio {
        Some(a) => {
            match a {
                Audio::From(_) => "\n<audio silent=\"true\" />".to_owned(),
                Audio::Silent => "\n<audio silent=\"true\" />".to_owned(),
                _ => {
                    match lp {
                        Loop::False => {
                            let mut s = "\n<audio src=\"".to_owned();
                            s.append(a.as_str());
                            s.append("\" />");
                            s
                        },
                        Loop::True => {
                            let mut s = "\n<audio src=\"".to_owned();
                            s.append(a.as_str());
                            s.append("\" loop=\"true\" />");
                            s
                        },
                    }
                },
            }
        },
        None => "\n<audio silent=\"true\" />".to_owned(),
    }
}

pub(crate) fn default_app_id_str() -> (r: &'static str)
    ensures
        r@ == default_app_id(),
{
    "{1AC14E77-02E7-4E5D-B744-2EB1AE5198B7}\\WindowsPowerShell\\v1.0\\powershell.exe"
}

pub(crate) fn app_id_str<'a>(id: &'a Option<String>) -> (r: &'a str)
    ensures
        r@ == app_id_part(*id),
{
    match id {
        Some(v) => v.as_str(),
        None => default_app_id_str(),
    }
}

fn show_part_string(p: &Option<Progress>) -> (r: String)
    ensures
        r@ == show_part(*p),
{
    match p {
        Some(progress) => {
            let mut s = "
                        $ToastNotification = [Windows.UI.Notifications.ToastNotification, Windows.UI.Notifications, ContentType = WindowsRuntime]::New($XmlDocument)
                        $ToastNotification.Tag = '".to_owned();
            s.append(progress.tag.as_str());
            s.append("'
                        $Dictionary = [System.Collections.Generic.Dictionary[String, String]]::New()
                        $Dictionary.Add('progressTitle', '");
            s.append(progress.title.as_str());
            s.append("')
                        $Dictionary.Add('progressValue', '");
            s.append(progress.value.as_str());
            s.append("')
                        $Dictionary.Add('progressValueString', '");
            s.append(progress.value_string.as_str());
            s.append("')
                        $Dictionary.Add('progressStatus', '");
            s.append(progress.status.as_str());
            s.append("')
                        $ToastNotification.Data = [Windows.UI.Notifications.NotificationData]::New($Dictionary)
                        $ToastNotification.Data.SequenceNumber = 1
                        [Windows.UI.Notifications.ToastNotificationManager, Windows.UI.Notifications, ContentType = WindowsRuntime]::CreateToastNotifier($AppId).Show($ToastNotification)
                        ");
            s
        },
        None => "[Windows.UI.Notifications.ToastNotificationManager, Windows.UI.Notifications, ContentType = WindowsRuntime]::CreateToastNotifier($AppId).Show($XmlDocument)".to_owned(),
    }
}

fn media_part_string(audio: &Option<Audio>) -> (r: String)
    ensures
        r@ == media_part(*audio),
{
    match audio {
        Some(Audio::From(url)) => {
            let mut s = "
                $MediaPlayer = [Windows.Media.Playback.MediaPlayer, Windows.Media, ContentType = WindowsRuntime]::New()
                $MediaPlayer.Source = [Windows.Media.Core.MediaSource]::CreateFromUri('".to_owned();
            let escaped = escape_attribute(trim_str(url.as_str()));
            s.append(escaped.as_str());
            s.append("')
                $MediaPlayer.Play()
                ");
            s
        },
        _ => String::new(),
    }
}

impl WinToastNotify {
    /// The toast XML document for this configuration.
    pub fn toast_xml(&self) -> (xml: String)
        ensures
            xml@ == spec_toast_xml(*self),
    {
        let mut s = "
            <toast".to_owned();
        let launch = launch_attr_string(&self.open);
        s.append(launch.as_str());
        s.append(duration_attr_str(&self.duration));
        s.append(scenario_attr_str(&self.scenario));
        s.append(">
                <visual>
                    <binding template=\"ToastGeneric\">
                        ");
        let logo = logo_elem_string(&self.logo, &self.logo_circle);
        s.append(logo.as_str());
        s.append("
                        ");
        let title = title_elem_string(&self.title);
        s.append(title.as_str());
        s.append("
                        ");
        let messages = messages_part_string(&self.messages);
        s.append(messages.as_str());
        s.append("
                        ");
        let image = image_elem_string(&self.image, &self.image_placement);
        s.append(image.as_str());
        s.append("
                        ");
        s.append(progress_elem_str(&self.progress));
        s.append("
                    </binding>
                </visual>
                <actions>
                    ");
        let actions = actions_part_string(&self.actions);
        s.append(actions.as_str());
        s.append("
                </actions>
                ");
        let audio = audio_elem_string(&self.audio, &self.audio_loop);
        s.append(audio.as_str());
        s.append("
            </toast>
            ");
        s
    }

    /// The whole script that shows this notification.
    pub fn show_command(&self) -> (cmd: String)
        ensures
            cmd@ == spec_show_command(*self),
    {
        let mut command = "$xml = @\"".to_owned();
        let xml = self.toast_xml();
        command.append(xml.as_str());
        command.append("\n\"@");
        command.append("
            $XmlDocument = [Windows.Data.Xml.Dom.XmlDocument, Windows.Data.Xml.Dom.XmlDocument, ContentType = WindowsRuntime]::New()
            $XmlDocument.loadXml($xml)
            $AppId = '");
        command.append(app_id_str(&self.app_id));
        command.append("'
            ");
        let show = show_part_string(&self.progress);
        command.append(show.as_str());
        command.append("
            ");
        let media = media_part_string(&self.audio);
        command.append(media.as_str());
        command
    }

    /// The script that patches the progress value and its display text on
    /// the notification with the given tag, under the given application id
    /// or the default one.
    pub fn progress_update_command(
        app_id: Option<&str>,
        tag: &str,
        value: &str,
        value_string: &str,
    ) -> (cmd: String)
        ensures
            cmd@ == spec_progress_update_command(app_id, tag, value, value_string),
    {
        let mut command = "
            $Dictionary = [System.Collections.Generic.Dictionary[String, String]]::New()
            $Dictionary.Add('progressValue', ".to_owned();
        command.append(value);
        command.append(")
            $Dictionary.Add('progressValueString', \"");
        command.append(value_string);
        command.append("\")
            $NotificationData = [Windows.UI.Notifications.NotificationData]::New($Dictionary)
            $NotificationData.SequenceNumber = 2
            $AppId = '");
        match app_id {
            Some(id) => command.append(id),
            None => command.append(default_app_id_str()),
        }
        command.append("'
            $Notifier = [Windows.UI.Notifications.ToastNotificationManager, Windows.UI.Notifications, ContentType = WindowsRuntime]::CreateToastNotifier($AppId)
            $Notifier.Update($NotificationData, '");
        command.append(tag);
        command.append("')
            ");
        command
    }

    /// The script that sets the progress bar with the given tag to done.
    pub fn progress_complete_command(
        app_id: Option<&str>,
        tag: &str,
        status: &str,
        value_string: &str,
    ) -> (cmd: String)
        ensures
            cmd@ == spec_progress_complete_command(app_id, tag, status, value_string),
    {
        let mut command = "
            $Dictionary = [System.Collections.Generic.Dictionary[String, String]]::New()
            $Dictionary.Add('progressStatus', '".to_owned();
        command.append(status);
        command.append("')
            $Dictionary.Add('progressValue', 1)
            $Dictionary.Add('progressValueString', \"");
        command.append(value_string);
        command.append("\")
            $NotificationData = [Windows.UI.Notifications.NotificationData]::New($Dictionary)
            $NotificationData.SequenceNumber = 2
            $AppId = '");
        match app_id {
            Some(id) => command.append(id),
            None => command.append(default_app_id_str()),
        }
        command.append("'
            $Notifier = [Windows.UI.Notifications.ToastNotificationManager, Windows.UI.Notifications, ContentType = WindowsRuntime]::CreateToastNotifier($AppId)
            $Notifier.Update($NotificationData, '");
        command.append(tag);
        command.append("')
            ");
        command
    }
}

} // verus!
