//! Notifications to a Discord webhook: which events are announced, and
//! what an announcement says.

use crate::lex::same_text;
use vstd::prelude::*;

verus! {

/// The settings of the notifications.
#[derive(Debug, Clone, PartialEq, Eq)]
pub struct DiscordConfig {
    pub webhook_url: String,
    pub enabled: bool,
    pub notify_startup: bool,
    pub notify_shutdown: bool,
    pub notify_player_join: bool,
    pub notify_player_leave: bool,
}

/// The kinds of event that can be announced.
#[derive(Debug, Clone, Copy, PartialEq, Eq, Structural)]
pub enum EventKind {
    Startup,
    Shutdown,
    PlayerJoin,
    PlayerLeave,
    /// Any event without a setting of its own.
    Other,
}

/// One message for the webhook.
#[derive(Debug, Clone, PartialEq, Eq)]
pub struct Notification {
    pub webhook_url: String,
    pub title: String,
    pub description: String,
    pub color: u32,
}

/// The kind of event that the name `event_type` stands for.
pub open spec fn kind_of(event_type: Seq<char>) -> EventKind {
    if event_type == "startup"@ {
        EventKind::Startup
    } else if event_type == "shutdown"@ {
        EventKind::Shutdown
    } else if event_type == "player_join"@ {
        EventKind::PlayerJoin
    } else if event_type == "player_leave"@ {
        EventKind::PlayerLeave
    } else {
        EventKind::Other
    }
}

impl EventKind {
    /// The kind of event that a name stands for.
    pub fn parse(event_type: &str) -> (kind: EventKind)
        ensures
            kind == kind_of(event_type@),
    {
        if same_text(event_type, "startup") {
            EventKind::Startup
        } else if same_text(event_type, "shutdown") {
            EventKind::Shutdown
        } else if same_text(event_type, "player_join") {
            EventKind::PlayerJoin
        } else if same_text(event_type, "player_leave") {
            EventKind::PlayerLeave
        } else {
            EventKind::Other
        }
    }

    /// The headline of the announcement of an event of this kind.
    pub open spec fn title_text(self) -> Seq<char> {
        match self {
            EventKind::Startup => "🟢 Server Started"@,
            EventKind::Shutdown => "🔴 Server Stopped"@,
            EventKind::PlayerJoin => "👋 Player Joined"@,
            EventKind::PlayerLeave => "👋 Player Left"@,
            EventKind::Other => "📢 Server Event"@,
        }
    }

    /// The colour of the announcement of an event of this kind.
    pub open spec fn color_code(self) -> u32 {
        match self {
            EventKind::Startup => 0x57F287,
            EventKind::Shutdown => 0xED4245,
            EventKind::PlayerJoin => 0x3BA55D,
            EventKind::PlayerLeave => 0xFAA81A,
            EventKind::Other => 0x5865F2,
        }
    }

    pub fn title(self) -> (title: &'static str)
        ensures
            title@ == self.title_text(),
    {
        match self {
            EventKind::Startup => "🟢 Server Started",
            EventKind::Shutdown => "🔴 Server Stopped",
            EventKind::PlayerJoin => "👋 Player Joined",
            EventKind::PlayerLeave => "👋 Player Left",
            EventKind::Other => "📢 Server Event",
        }
    }

    pub fn color(self) -> (color: u32)
        ensures
            color == self.color_code(),
    {
        match self {
            EventKind::Startup => 0x57F287,
            EventKind::Shutdown => 0xED4245,
            EventKind::PlayerJoin => 0x3BA55D,
            EventKind::PlayerLeave => 0xFAA81A,
            EventKind::Other => 0x5865F2,
        }
    }
}

/// The colour of the test message.
pub const TEST_COLOR: u32 = 0x5865F2;

impl DiscordConfig {
    /// The settings in use until the user saves others: nothing is sent,
    /// and every kind of event is marked for announcement.
    pub open spec fn initial(self) -> bool {
        &&& self.webhook_url@.len() == 0
        &&& !self.enabled
        &&& self.notify_startup
        &&& self.notify_shutdown
        &&& self.notify_player_join
        &&& self.notify_player_leave
    }

    /// The settings mark events of `kind` for announcement.
    pub open spec fn marks(self, kind: EventKind) -> bool {
        match kind {
            EventKind::Startup => self.notify_startup,
            EventKind::Shutdown => self.notify_shutdown,
            EventKind::PlayerJoin => self.notify_player_join,
            EventKind::PlayerLeave => self.notify_player_leave,
            EventKind::Other => false,
        }
    }

    /// An event of `kind` is announced: notifications are switched on, a
    /// webhook is configured, and the kind is marked.
    pub open spec fn announces(self, kind: EventKind) -> bool {
        self.enabled && self.webhook_url@.len() > 0 && self.marks(kind)
    }

    /// The announcement of the event named `event_type` with the text
    /// `message`, or nothing if such events are not announced.
    pub fn notification_for(&self, event_type: &str, message: &str) -> (notification: Option<
        Notification,
    >)
        ensures
            match notification {
                None => !self.announces(kind_of(event_type@)),
                Some(notification) => {
                    &&& self.announces(kind_of(event_type@))
                    &&& notification.webhook_url@ == self.webhook_url@
                    &&& notification.title@ == kind_of(event_type@).title_text()
                    &&& notification.description@ == message@
                    &&& notification.color == kind_of(event_type@).color_code()
                },
            },
    {
        if !self.enabled || self.webhook_url.as_str().is_empty() {
            return None;
        }
        let kind = EventKind::parse(event_type);
        let marked = match kind {
            EventKind::Startup => self.notify_startup,
            EventKind::Shutdown => self.notify_shutdown,
            EventKind::PlayerJoin => self.notify_player_join,
            EventKind::PlayerLeave => self.notify_player_leave,
            EventKind::Other => false,
        };
        if !marked {
            return None;
        }
        Some(
            Notification {
                webhook_url: self.webhook_url.clone(),
                title: kind.title().to_owned(),
                description: message.to_owned(),
                color: kind.color(),
            },
        )
    }

    /// The message that tests the webhook. It is sent whether or not
    /// notifications are switched on; without a webhook there is nothing
    /// to test.
    pub fn test_message(&self) -> (message: Result<Notification, String>)
        ensures
            match message {
                Err(reason) => self.webhook_url@.len() == 0 && reason@
                    == "Webhook URL is not configured"@,
                Ok(notification) => {
                    &&& self.webhook_url@.len() > 0
                    &&& notification.webhook_url@ == self.webhook_url@
                    &&& notification.title@ == "🧪 Test Message"@
                    &&& notification.description@
                        == "This is a test message from Hytale Server Manager!"@
                    &&& notification.color == TEST_COLOR
                },
            },
    {
        if self.webhook_url.as_str().is_empty() {
            return Err("Webhook URL is not configured".to_owned());
        }
        Ok(
            Notification {
                webhook_url: self.webhook_url.clone(),
                title: "🧪 Test Message".to_owned(),
                description: "This is a test message from Hytale Server Manager!".to_owned(),
                color: TEST_COLOR,
            },
        )
    }
}

impl Default for DiscordConfig {
    fn default() -> (config: DiscordConfig)
        ensures
            config.initial(),
    {
        DiscordConfig {
            webhook_url: String::new(),
            enabled: false,
            notify_startup: true,
            notify_shutdown: true,
            notify_player_join: true,
            notify_player_leave: true,
        }
    }
}

/// What sending a message reports once the webhook has answered:
/// success, or the status that the webhook answered with.
pub fn delivery_result(accepted: bool, status: &str) -> (result: Result<bool, String>)
    ensures
        match result {
            Ok(sent) => accepted && sent,
            Err(reason) => !accepted && reason@ == "Webhook returned error: "@ + status@,
        },
{
    if accepted {
        Ok(true)
    } else {
        let mut reason = "Webhook returned error: ".to_owned();
        reason.append(status);
        Err(reason)
    }
}

} // verus!
