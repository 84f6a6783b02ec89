use vstd::prelude::*;
use crate::nlp::Intent;
use crate::pipeline::{MessageToUser, Status};
use crate::text::{debug_text_of, debug_quoted, same_text};
use crate::token::{Database as TokenDatabase, without};

verus! {

/// A chat room's installation of the add-on.
#[derive(Debug)]
pub struct Installation {
    pub oauth_id: String,
    pub oauth_secret: String,
    pub room_id: i32,
    pub group_id: i32,
    pub capabilities_url: String,
}

/// The first installation with OAuth id `key`, looking from position `i` on.
pub open spec fn installation_from(s: Seq<Installation>, key: Seq<char>, i: int) -> Option<Installation>
    decreases s.len() - i,
{
    if i < 0 || i >= s.len() {
        None
    } else if s[i].oauth_id@ == key {
        Some(s[i])
    } else {
        installation_from(s, key, i + 1)
    }
}

/// The installations known so far, in the order they arrived.
#[derive(Debug)]
pub struct Database {
    pub installations: Vec<Installation>,
}

impl Database {
    /// No installations.
    pub fn new() -> (r: Database)
        ensures
            r.installations@.len() == 0,
    {
        Database { installations: Vec::new() }
    }

    /// Records an installation after those already known.
    pub fn add_installation(&mut self, installation: Installation)
        ensures
            final(self).installations@ == old(self).installations@.push(installation),
    {
        self.installations.push(installation);
    }

    /// The first installation recorded with OAuth id `key`.
    pub fn get_installation(&self, key: String) -> (r: Option<&Installation>)
        ensures
            match r {
                Some(i) => installation_from(self.installations@, key@, 0) == Some(*i),
                None => installation_from(self.installations@, key@, 0) is None,
            },
    {
        let mut i: usize = 0;
        while i < self.installations.len()
            invariant
                i <= self.installations@.len(),
                installation_from(self.installations@, key@, i as int) == installation_from(
                    self.installations@,
                    key@,
                    0,
                ),
            decreases self.installations.len() - i,
        {
            if same_text(self.installations[i].oauth_id.as_str(), key.as_str()) {
                return Some(&self.installations[i]);
            }
            i = i + 1;
        }
        None
    }
}

/// The colour a chat notification is shown in.
#[derive(PartialEq, Eq, Structural, Clone, Copy, Debug)]
pub enum Color {
    Green,
    Yellow,
    Purple,
    Red,
}

/// A notification posted back to the chat room.
#[derive(Debug)]
pub struct NotificationResponse {
    pub message: String,
    pub color: Color,
}

/// The colour for each status.
pub open spec fn color_of(s: Status) -> Color {
    match s {
        Status::Info => Color::Purple,
        Status::Confirmation => Color::Green,
        Status::Error => Color::Red,
        Status::ActionRequired => Color::Yellow,
    }
}

/// The text shown for a reply.
pub open spec fn notification_text(intent: Intent, data: Seq<String>) -> Seq<char> {
    match intent {
        Intent::GetSelf => "You are connected as "@ + data[0]@ + "."@,
        Intent::Logout => "You are now logged out."@,
        Intent::ForcedLogout => "Error communicating with ARTIK Cloud. You have been logged out."@,
        Intent::GetField => if data.len() == 1 {
            "No device found for '"@ + data[0]@ + "'."@
        } else if data.len() == 2 {
            "No field '"@ + data[1]@ + "' found for device '"@ + data[0]@ + "'."@
        } else if data.len() == 3 {
            data[0]@ + "'s "@ + data[1]@ + " is "@ + data[2]@ + "."@
        } else {
            "uuuh ?"@
        },
        Intent::Unknown => "Unknown intent: "@ + if data.len() > 0 {
            debug_text_of(data[0]@)
        } else {
            debug_text_of("'no intent found'"@)
        },
        Intent::SetField => "SetField not yet done"@,
        Intent::FindDeviceType => "FindDeviceType not yet done"@,
    }
}

/// A reply names the credential it concerns wherever its text or its effect
/// needs it.
pub open spec fn renderable(m: MessageToUser) -> bool {
    (m.intent == Intent::GetSelf || m.intent == Intent::Logout || m.intent == Intent::ForcedLogout)
        ==> m.data@.len() >= 1
}

/// Renders a reply for the chat room. A logout, asked for or forced, also
/// forgets every conversation that used the credential in `data[0]`.
pub fn notification_from_message(message: MessageToUser, tokens: &mut TokenDatabase) -> (r: NotificationResponse)
    requires
        renderable(message),
        old(tokens).wf(),
    ensures
        final(tokens).wf(),
        r.message@ == notification_text(message.intent, message.data@),
        r.color == color_of(message.status),
        message.intent == Intent::Logout || message.intent == Intent::ForcedLogout ==> forall|k: Seq<char>|
            #[trigger] final(tokens).token(k) == without(old(tokens).token(k), message.data@[0]@),
        !(message.intent == Intent::Logout || message.intent == Intent::ForcedLogout) ==> *final(tokens)
            == *old(tokens),
{
    let data = &message.data;
    let text = match message.intent {
        Intent::GetSelf => {
            let mut t = String::from_str("You are connected as ");
            t.append(data[0].as_str());
            t.append(".");
            t
        },
        Intent::Logout => {
            tokens.remove_token(data[0].clone());
            String::from_str("You are now logged out.")
        },
        Intent::ForcedLogout => {
            tokens.remove_token(data[0].clone());
            String::from_str("Error communicating with ARTIK Cloud. You have been logged out.")
        },
        Intent::GetField => if data.len() == 1 {
            let mut t = String::from_str("No device found for '");
            t.append(data[0].as_str());
            t.append("'.");
            t
        } else if data.len() == 2 {
            let mut t = String::from_str("No field '");
            t.append(data[1].as_str());
            t.append("' found for device '");
            t.append(data[0].as_str());
            t.append("'.");
            t
        } else if data.len() == 3 {
            let mut t = data[0].clone();
            t.append("'s ");
            t.append(data[1].as_str());
            t.append(" is ");
            t.append(data[2].as_str());
            t.append(".");
            t
        } else {
            String::from_str("uuuh ?")
        },
        Intent::Unknown => {
            let shown = if data.len() > 0 {
                debug_quoted(data[0].as_str())
            } else {
                debug_quoted("'no intent found'")
            };
            let mut t = String::from_str("Unknown intent: ");
            t.append(shown.as_str());
            t
        },
        Intent::SetField => String::from_str("SetField not yet done"),
        Intent::FindDeviceType => String::from_str("FindDeviceType not yet done"),
    };
    let color = match message.status {
        Status::Info => Color::Purple,
        Status::Confirmation => Color::Green,
        Status::Error => Color::Red,
        Status::ActionRequired => Color::Yellow,
    };
    NotificationResponse { message: text, color }
}

} // verus!
