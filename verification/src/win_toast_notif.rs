//! A smaller variant of the builder: no scenario, no progress
//! bar, and a separate field for a custom sound source. Its setters store
//! their text as given, without trimming or escaping.

use vstd::prelude::*;
use vstd::string::StringExecFns;

use crate::notify::{
    app_id_part, app_id_str, launch_attr, launch_attr_string, message_elems, messages_part,
    messages_part_string, title_elem, title_elem_string,
};

verus! {

/// A toast notification under construction.
pub struct WinToastNotif {
    pub app_id: Option<String>,
    pub duration: Duration,
    pub notif_open: Option<String>,
    pub title: Option<String>,
    pub messages: Option<Vec<String>>,
    pub logo: Option<String>,
    pub logo_circle: LogoCropCircle,
    pub image: Option<String>,
    pub image_placement: ImagePlacement,
    pub actions: Option<Vec<Action>>,
    pub audio: Option<Audio>,
    pub audio_loop: Loop,
    pub audio_source: Option<String>,
}

/// How long the notification stays on screen; `TimeOut` keeps it up by
/// marking it as an incoming call.
pub enum Duration {
    Short,
    Long,
    TimeOut,
}

/// A button on the notification.
pub struct Action {
    pub activation_type: ActivationType,
    pub action_content: String,
    pub arguments: String,
}

/// What pressing a button activates.
pub enum ActivationType {
    Protocol,
    System,
    Background,
    Foreground,
}

/// Whether the logo is cropped into a circle.
pub enum LogoCropCircle {
    True,
    False,
}

/// Where the large image is placed.
pub enum ImagePlacement {
    Top,
    Bottom,
}

/// The notification sound, one of the system sound events.
pub enum Audio {
    Default,
    IM,
    Mail,
    Remainder,
    SMS,
    LoopingAlarm1,
    LoopingAlarm2,
    LoopingAlarm3,
    LoopingAlarm4,
    LoopingAlarm5,
    LoopingAlarm6,
    LoopingAlarm7,
    LoopingAlarm8,
    LoopingAlarm9,
    LoopingAlarm10,
    LoopingCall1,
    LoopingCall2,
    LoopingCall3,
    LoopingCall4,
    LoopingCall5,
    LoopingCall6,
    LoopingCall7,
    LoopingCall8,
    LoopingCall9,
    LoopingCall10,
}

/// Whether the sound is repeated while the notification is shown.
pub enum Loop {
    True,
    False,
}

/// The state `new` returns: a short duration, one placeholder body line,
/// the image at the top, and no sound.
pub open spec fn is_initial(n: WinToastNotif) -> bool {
    &&& n.app_id is None
    &&& n.notif_open is None
    &&& n.duration is Short
    &&& n.title is None
    &&& n.messages matches Some(v) && v@.len() == 1 && v@[0]@ == "Hellow World"@
    &&& n.logo is None
    &&& n.logo_circle is False
    &&& n.image is None
    &&& n.image_placement is Top
    &&& n.actions is None
    &&& n.audio is None
    &&& n.audio_loop is False
    &&& n.audio_source is None
}

impl WinToastNotif {
    pub fn new() -> (r: Self)
        ensures
            is_initial(r),
    {
        let mut messages: Vec<String> = Vec::new();
        messages.push("Hellow World".to_owned());
        Self {
            app_id: None,
            notif_open: None,
            duration: Duration::Short,
            title: None,
            messages: Some(messages),
            logo: None,
            logo_circle: LogoCropCircle::False,
            image: None,
            image_placement: ImagePlacement::Top,
            actions: None,
            audio: None,
            audio_loop: Loop::False,
            audio_source: None,
        }
    }

    /// Set the application id the notification is delivered under.
    pub fn set_app_id(self, id: &str) -> (r: Self)
        ensures
            r.app_id matches Some(v) && v@ == id@,
            r == (WinToastNotif { app_id: r.app_id, ..self }),
    {
        WinToastNotif { app_id: Some(id.to_owned()), ..self }
    }

    /// Set how long the notification stays on screen.
    pub fn set_duration(self, duration: Duration) -> (r: Self)
        ensures
            r == (WinToastNotif { duration, ..self }),
    {
        WinToastNotif { duration, ..self }
    }

    /// Set the link opened when the notification is clicked.
    pub fn set_notif_open(self, url: &str) -> (r: Self)
        ensures
            r.notif_open matches Some(v) && v@ == url@,
            r == (WinToastNotif { notif_open: r.notif_open, ..self }),
    {
        WinToastNotif { notif_open: Some(url.to_owned()), ..self }
    }

    /// Set the title.
    pub fn set_title(self, title: &str) -> (r: Self)
        ensures
            r.title matches Some(v) && v@ == title@,
            r == (WinToastNotif { title: r.title, ..self }),
    {
        WinToastNotif { title: Some(title.to_owned()), ..self }
    }

    /// Set the body lines.
    pub fn set_messages(self, messages: Vec<&str>) -> (r: Self)
        ensures
            r.messages matches Some(v) && {
                &&& v@.len() == messages@.len()
                &&& forall|i: int| 0 <= i < v@.len() ==> #[trigger] v@[i]@ == messages@[i]@
            },
            r == (WinToastNotif { messages: r.messages, ..self }),
    {
        let mut owned: Vec<String> = Vec::new();
        let mut i: usize = 0;
        while i < messages.len()
            invariant
                i <= messages.len(),
                owned@.len() == i,
                forall|j: int| 0 <= j < i ==> #[trigger] owned@[j]@ == messages@[j]@,
            decreases messages.len() - i,
        {
            owned.push(messages[i].to_owned());
            i = i + 1;
        }
        WinToastNotif { messages: Some(owned), ..self }
    }

    /// Set the logo, and whether it is cropped into a circle.
    pub fn set_logo(self, path: &str, hint_crop: LogoCropCircle) -> (r: Self)
        ensures
            r.logo matches Some(v) && v@ == path@,
            r == (WinToastNotif { logo: r.logo, logo_circle: hint_crop, ..self }),
    {
        WinToastNotif { logo: Some(path.to_owned()), logo_circle: hint_crop, ..self }
    }

    /// Set the large image and where it is placed.
    pub fn set_image(self, path: &str, position: ImagePlacement) -> (r: Self)
        ensures
            r.image matches Some(v) && v@ == path@,
            r == (WinToastNotif { image: r.image, image_placement: position, ..self }),
    {
        WinToastNotif { image: Some(path.to_owned()), image_placement: position, ..self }
    }

    /// Set the buttons.
    pub fn set_actions(self, actions: Vec<Action>) -> (r: Self)
        ensures
            r == (WinToastNotif { actions: Some(actions), ..self }),
    {
        WinToastNotif { actions: Some(actions), ..self }
    }

    /// Set the sound and whether it loops.
    pub fn set_audio(self, audio: Audio, audio_loop: Loop) -> (r: Self)
        ensures
            r == (WinToastNotif { audio: Some(audio), audio_loop, ..self }),
    {
        WinToastNotif { audio: Some(audio), audio_loop, ..self }
    }

    /// Set a custom sound source; the audio element then stays silent and
    /// the source is played separately.
    pub fn set_audio_source(self, url: &str) -> (r: Self)
        ensures
            r.audio_source matches Some(v) && v@ == url@,
            r == (WinToastNotif { audio_source: r.audio_source, ..self }),
    {
        WinToastNotif { audio_source: Some(url.to_owned()), ..self }
    }
}

/// The value of the `activationType` attribute for each activation kind.
pub open spec fn activation_str(t: ActivationType) -> Seq<char> {
    match t {
        ActivationType::Foreground => "foreground"@,
        ActivationType::Background => "background"@,
        ActivationType::Protocol => "protocol"@,
        ActivationType::System => "system"@,
    }
}

impl ActivationType {
    pub fn as_str(&self) -> (r: &'static str)
        ensures
            r@ == activation_str(*self),
    {
        match self {
            ActivationType::Foreground => "foreground",
            ActivationType::Background => "background",
            ActivationType::Protocol => "protocol",
            ActivationType::System => "system",
        }
    }
}

/// The system sound event URI each audio choice stands for.
pub open spec fn audio_uri(a: Audio) -> Seq<char> {
    match a {
        Audio::Default => "ms-winsoundevent:Notification.Default"@,
        Audio::IM => "ms-winsoundevent:Notification.IM"@,
        Audio::Mail => "ms-winsoundevent:Notification.Mail"@,
        Audio::Remainder => "ms-winsoundevent:Notification.Remainder"@,
        Audio::SMS => "ms-winsoundevent:Notification.SMS"@,
        Audio::LoopingAlarm1 => "ms-winsoundevent:Notification.Looping.Alarm"@,
        Audio::LoopingAlarm2 => "ms-winsoundevent:Notification.Looping.Alarm2"@,
        Audio::LoopingAlarm3 => "ms-winsoundevent:Notification.Looping.Alarm3"@,
        Audio::LoopingAlarm4 => "ms-winsoundevent:Notification.Looping.Alarm4"@,
        Audio::LoopingAlarm5 => "ms-winsoundevent:Notification.Looping.Alarm5"@,
        Audio::LoopingAlarm6 => "ms-winsoundevent:Notification.Looping.Alarm6"@,
        Audio::LoopingAlarm7 => "ms-winsoundevent:Notification.Looping.Alarm7"@,
        Audio::LoopingAlarm8 => "ms-winsoundevent:Notification.Looping.Alarm8"@,
        Audio::LoopingAlarm9 => "ms-winsoundevent:Notification.Looping.Alarm9"@,
        Audio::LoopingAlarm10 => "ms-winsoundevent:Notification.Looping.Alarm10"@,
        Audio::LoopingCall1 => "ms-winsoundevent:Notification.Looping.Call"@,
        Audio::LoopingCall2 => "ms-winsoundevent:Notification.Looping.Call2"@,
        Audio::LoopingCall3 => "ms-winsoundevent:Notification.Looping.Call3"@,
        Audio::LoopingCall4 => "ms-winsoundevent:Notification.Looping.Call4"@,
        Audio::LoopingCall5 => "ms-winsoundevent:Notification.Looping.Call5"@,
        Audio::LoopingCall6 => "ms-winsoundevent:Notification.Looping.Call6"@,
        Audio::LoopingCall7 => "ms-winsoundevent:Notification.Looping.Call7"@,
        Audio::LoopingCall8 => "ms-winsoundevent:Notification.Looping.Call8"@,
        Audio::LoopingCall9 => "ms-winsoundevent:Notification.Looping.Call9"@,
        Audio::LoopingCall10 => "ms-winsoundevent:Notification.Looping.Call10"@,
    }
}

impl Audio {
    pub fn as_str(&self) -> (r: &'static str)
        ensures
            r@ == audio_uri(*self),
    {
        match self {
            Audio::Default => "ms-winsoundevent:Notification.Default",
            Audio::IM => "ms-winsoundevent:Notification.IM",
            Audio::Mail => "ms-winsoundevent:Notification.Mail",
            Audio::Remainder => "ms-winsoundevent:Notification.Remainder",
            Audio::SMS => "ms-winsoundevent:Notification.SMS",
            Audio::LoopingAlarm1 => "ms-winsoundevent:Notification.Looping.Alarm",
            Audio::LoopingAlarm2 => "ms-winsoundevent:Notification.Looping.Alarm2",
            Audio::LoopingAlarm3 => "ms-winsoundevent:Notification.Looping.Alarm3",
            Audio::LoopingAlarm4 => "ms-winsoundevent:Notification.Looping.Alarm4",
            Audio::LoopingAlarm5 => "ms-winsoundevent:Notification.Looping.Alarm5",
            Audio::LoopingAlarm6 => "ms-winsoundevent:Notification.Looping.Alarm6",
            Audio::LoopingAlarm7 => "ms-winsoundevent:Notification.Looping.Alarm7",
            Audio::LoopingAlarm8 => "ms-winsoundevent:Notification.Looping.Alarm8",
            Audio::LoopingAlarm9 => "ms-winsoundevent:Notification.Looping.Alarm9",
            Audio::LoopingAlarm10 => "ms-winsoundevent:Notification.Looping.Alarm10",
            Audio::LoopingCall1 => "ms-winsoundevent:Notification.Looping.Call",
            Audio::LoopingCall2 => "ms-winsoundevent:Notification.Looping.Call2",
            Audio::LoopingCall3 => "ms-winsoundevent:Notification.Looping.Call3",
            Audio::LoopingCall4 => "ms-winsoundevent:Notification.Looping.Call4",
            Audio::LoopingCall5 => "ms-winsoundevent:Notification.Looping.Call5",
            Audio::LoopingCall6 => "ms-winsoundevent:Notification.Looping.Call6",
            Audio::LoopingCall7 => "ms-winsoundevent:Notification.Looping.Call7",
            Audio::LoopingCall8 => "ms-winsoundevent:Notification.Looping.Call8",
            Audio::LoopingCall9 => "ms-winsoundevent:Notification.Looping.Call9",
            Audio::LoopingCall10 => "ms-winsoundevent:Notification.Looping.Call10",
        }
    }
}

/// The `duration` attribute of the toast element, or the incoming-call
/// scenario that `TimeOut` stands for.
pub open spec fn duration_attr(d: Duration) -> Seq<char> {
    match d {
        Duration::Short => ""@,
        Duration::Long => " duration=\"long\""@,
        Duration::TimeOut => "scenario=\"incomingCall\""@,
    }
}

/// The image element for the logo, empty when no logo was set.
pub open spec fn logo_elem(logo: Option<String>, crop: LogoCropCircle) -> Seq<char> {
    match logo {
        Some(l) => {
            if crop is True {
                "\n<image placement=\"appLogoOverride\" hint-crop=\"circle\" src=\""@ + l@
                    + "\"/>"@
            } else {
                "\n<image placement=\"appLogoOverride\" src=\""@ + l@ + "\"/>"@
            }
        },
        None => Seq::empty(),
    }
}

/// The image element for the large image, empty when none was set.
pub open spec fn image_elem(image: Option<String>, placement: ImagePlacement) -> Seq<char> {
    match image {
        Some(img) => {
            if placement is Top {
                "\n<image placement=\"hero\" src=\""@ + img@ + "\"/>"@
            } else {
                "\n<image src=\""@ + img@ + "\"/>"@
            }
        },
        None => Seq::empty(),
    }
}

/// The action element for one button.
pub open spec fn action_elem(a: Action) -> Seq<char> {
    "
                        <action content=\""@ + a.action_content@ + "\" activationType=\""@
        + activation_str(a.activation_type) + "\" arguments=\""@ + a.arguments@ + "\" />
                        "@
}

/// One action element per button, in order.
pub open spec fn action_elems(s: Seq<Action>) -> Seq<char>
    decreases s.len(),
{
    if s.len() == 0 {
        Seq::empty()
    } else {
        action_elems(s.drop_last()) + action_elem(s.last())
    }
}

/// The action elements for the buttons, empty when none were set.
pub open spec fn actions_part(a: Option<Vec<Action>>) -> Seq<char> {
    match a {
        Some(v) => action_elems(v@),
        None => Seq::empty(),
    }
}

/// The audio element: a sound with an optional loop attribute when one
/// was chosen and no custom source is set, and silent otherwise.
pub open spec fn audio_elem(audio: Option<Audio>, lp: Loop, source: Option<String>) -> Seq<
    char,
> {
    match audio {
        Some(a) => {
            match source {
                None => {
                    if lp is True {
                        "\n<audio src=\""@ + audio_uri(a) + "\" loop=\"true\" />"@
                    } else {
                        "\n<audio src=\""@ + audio_uri(a) + "\" />"@
                    }
                },
                Some(_) => "\n<audio silent=\"true\" />"@,
            }
        },
        None => "\n<audio silent=\"true\" />"@,
    }
}

/// The script lines that play the custom sound source, empty when none
/// was set.
pub open spec fn media_part(source: Option<String>) -> Seq<char> {
    match source {
        Some(url) => "
                    $MediaPlayer = [Windows.Media.Playback.MediaPlayer, Windows.Media, ContentType = WindowsRuntime]::New()
                    $MediaPlayer.Source = [Windows.Media.Core.MediaSource]::CreateFromUri('"@
            + url@ + "')
                    $MediaPlayer.Play()
                    "@,
        None => Seq::empty(),
    }
}

/// The toast XML document for a configuration: the toast element with its
/// attributes, the visual binding with logo, title, body lines and image,
/// then the buttons and the audio element.
pub open spec fn spec_toast_xml(n: WinToastNotif) -> Seq<char> {
    "
            <toast"@ + launch_attr(n.notif_open) + duration_attr(n.duration) + ">
                <visual>
                    <binding template=\"ToastGeneric\">
                        "@ + logo_elem(n.logo, n.logo_circle) + "
                        "@ + title_elem(n.title) + "
                        "@ + messages_part(n.messages) + "
                        "@ + image_elem(n.image, n.image_placement) + "
                    </binding>
                </visual>
                <actions>
                    "@ + actions_part(n.actions) + "
                </actions>
                "@ + audio_elem(n.audio, n.audio_loop, n.audio_source) + "
            </toast>
            "@
}

/// The whole script that shows the toast: the XML document in a verbatim
/// block, the lines that load it and show it under the application id,
/// and, for a custom sound source, the player lines.
pub open spec fn spec_show_command(n: WinToastNotif) -> Seq<char> {
    "$xml = @\""@ + spec_toast_xml(n) + "\n\"@"@ + "
            $XmlDocument = [Windows.Data.Xml.Dom.XmlDocument, Windows.Data.Xml.Dom.XmlDocument, ContentType = WindowsRuntime]::New()
            $XmlDocument.loadXml($xml)
            $AppId = '"@ + app_id_part(n.app_id) + "'
            [Windows.UI.Notifications.ToastNotificationManager, Windows.UI.Notifications, ContentType = WindowsRuntime]::CreateToastNotifier($AppId).Show($XmlDocument)
            "@ + media_part(n.audio_source)
}

fn duration_attr_str(d: &Duration) -> (r: &'static str)
    ensures
        r@ == duration_attr(*d),
{
    match d {
        Duration::Short => "",
        Duration::Long => " duration=\"long\"",
        Duration::TimeOut => "scenario=\"incomingCall\"",
    }
}

fn logo_elem_string(logo: &Option<String>, crop: &LogoCropCircle) -> (r: String)
    ensures
        r@ == logo_elem(*logo, *crop),
{
    match logo {
        Some(l) => {
            match crop {
                LogoCropCircle::True => {
                    let mut s =
                        "\n<image placement=\"appLogoOverride\" hint-crop=\"circle\" src=\"".to_owned();
                    s.append(l.as_str());
                    s.append("\"/>");
                    s
                },
                LogoCropCircle::False => {
                    let mut s = "\n<image placement=\"appLogoOverride\" src=\"".to_owned();
                    s.append(l.as_str());
                    s.append("\"/>");
                    s
                },
            }
        },
        None => String::new(),
    }
}

fn image_elem_string(image: &Option<String>, placement: &ImagePlacement) -> (r: String)
    ensures
        r@ == image_elem(*image, *placement),
{
    match image {
        Some(img) => {
            match placement {
                ImagePlacement::Top => {
                    let mut s = "\n<image placement=\"hero\" src=\"".to_owned();
                    s.append(img.as_str());
                    s.append("\"/>");
                    s
                },
                ImagePlacement::Bottom => {
                    let mut s = "\n<image src=\"".to_owned();
                    s.append(img.as_str());
                    s.append("\"/>");
                    s
                },
            }
        },
        None => String::new(),
    }
}

fn action_elem_string(a: &Action) -> (r: String)
    ensures
        r@ == action_elem(*a),
{
    let mut s = "
                        <action content=\"".to_owned();
    s.append(a.action_content.as_str());
    s.append("\" activationType=\"");
    s.append(a.activation_type.as_str());
    s.append("\" arguments=\"");
    s.append(a.arguments.as_str());
    s.append("\" />
                        ");
    s
}

fn actions_part_string(actions: &Option<Vec<Action>>) -> (r: String)
    ensures
        r@ == actions_part(*actions),
{
    match actions {
        Some(acts) => {
            let mut s = String::new();
            let mut i: usize = 0;
            while i < acts.len()
                invariant
                    i <= acts.len(),
                    s@ == action_elems(acts@.take(i as int)),
                decreases acts.len() - i,
            {
                let elem = action_elem_string(&acts[i]);
                s.append(elem.as_str());
                proof {
                    assert(acts@.take(i as int + 1).drop_last() =~= acts@.take(i as int));
                    assert(acts@.take(i as int + 1).last() == acts@[i as int]);
                }
                i = i + 1;
            }
            proof {
                assert(acts@.take(acts@.len() as int) =~= acts@);
            }
            s
        },
        None => String::new(),
    }
}

fn audio_elem_string(audio: &Option<Audio>, lp: &Loop, source: &Option<String>) -> (r: String)
    ensures
        r@ == audio_elem(*audio, *lp, *source),
{
    match audio {
        Some(a) => {
            match source {
                None => {
                    match lp {
                        Loop::True => {
                            let mut s = "\n<audio src=\"".to_owned();
                            s.append(a.as_str());
                            s.append("\" loop=\"true\" />");
                            s
                        },
                        Loop::False => {
                            let mut s = "\n<audio src=\"".to_owned();
                            s.append(a.as_str());
                            s.append("\" />");
                            s
                        },
                    }
                },
                Some(_) => "\n<audio silent=\"true\" />".to_owned(),
            }
        },
        None => "\n<audio silent=\"true\" />".to_owned(),
    }
}

fn media_part_string(source: &Option<String>) -> (r: String)
    ensures
        r@ == media_part(*source),
{
    match source {
        Some(url) => {
            let mut s = "
                    $MediaPlayer = [Windows.Media.Playback.MediaPlayer, Windows.Media, ContentType = WindowsRuntime]::New()
                    $MediaPlayer.Source = [Windows.Media.Core.MediaSource]::CreateFromUri('".to_owned();
            s.append(url.as_str());
            s.append("')
                    $MediaPlayer.Play()
                    ");
            s
        },
        None => String::new(),
    }
}

impl WinToastNotif {
    /// The toast XML document for this configuration.
    pub fn toast_xml(&self) -> (xml: String)
        ensures
            xml@ == spec_toast_xml(*self),
    {
        let mut s = "
            <toast".to_owned();
        let launch = launch_attr_string(&self.notif_open);
        s.append(launch.as_str());
        s.append(duration_attr_str(&self.duration));
        s.append(">
                <visual>
                    <binding template=\"ToastGeneric\">
                        ");
        let logo = logo_elem_string(&self.logo, &self.logo_circle);
        s.append(logo.as_str());
        s.append("
                        ");
        let title = title_elem_string(&self.title);
        s.append(title.as_str());
        s.append("
                        ");
        let messages = messages_part_string(&self.messages);
        s.append(messages.as_str());
        s.append("
                        ");
        let image = image_elem_string(&self.image, &self.image_placement);
        s.append(image.as_str());
        s.append("
                    </binding>
                </visual>
                <actions>
                    ");
        let actions = actions_part_string(&self.actions);
        s.append(actions.as_str());
        s.append("
                </actions>
                ");
        let audio = audio_elem_string(&self.audio, &self.audio_loop, &self.audio_source);
        s.append(audio.as_str());
        s.append("
            </toast>
            ");
        s
    }

    /// The whole script that shows this notification.
    pub fn show_command(&self) -> (cmd: String)
        ensures
            cmd@ == spec_show_command(*self),
    {
        let mut command = "$xml = @\"".to_owned();
        let xml = self.toast_xml();
        command.append(xml.as_str());
        command.append("\n\"@");
        command.append("
            $XmlDocument = [Windows.Data.Xml.Dom.XmlDocument, Windows.Data.Xml.Dom.XmlDocument, ContentType = WindowsRuntime]::New()
            $XmlDocument.loadXml($xml)
            $AppId = '");
        command.append(app_id_str(&self.app_id));
        command.append("'
            [Windows.UI.Notifications.ToastNotificationManager, Windows.UI.Notifications, ContentType = WindowsRuntime]::CreateToastNotifier($AppId).Show($XmlDocument)
            ");
        let media = media_part_string(&self.audio_source);
        command.append(media.as_str());
        command
    }
}

} // verus!
