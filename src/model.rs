use vstd::prelude::*;

verus! {

/// A game server's report of its state.
pub struct ServerStatus {
    pub game_version: String,
    pub server_ip: Option<String>,
    pub games: Vec<Game>,
    pub players: Vec<Player>,
}

/// A player as a game server reports it.
pub struct Player {
    pub id: String,
    pub name: String,
}

/// A game running on a server.
pub struct Game {
    pub name: String,
    pub ty: String,
    pub player_count: u16,
}

/// A chat message, with the message it replies to, if any.
pub struct ChatMessage {
    pub sender: String,
    pub content: String,
    pub name_color: Option<u32>,
    pub attachments: Vec<ChatAttachment>,
    pub replying_to: Option<Box<ChatMessage>>,
}

/// A file attached to a chat message.
pub struct ChatAttachment {
    pub name: String,
    pub url: String,
}

impl ChatMessage {
    /// How many messages the reply chain below this one holds.
    pub open spec fn spec_reply_depth(&self) -> nat
        decreases self,
    {
        match &self.replying_to {
            Some(m) => 1 + m.spec_reply_depth(),
            None => 0,
        }
    }

    /// How many messages the reply chain below this one holds, capped at `limit`.
    pub fn reply_depth(&self, limit: u32) -> (r: u32)
        ensures
            r as nat == if self.spec_reply_depth() < limit as nat {
                self.spec_reply_depth()
            } else {
                limit as nat
            },
        decreases self,
    {
        match &self.replying_to {
            Some(m) => {
                if limit == 0 {
                    0
                } else {
                    1 + m.reply_depth(limit - 1)
                }
            },
            None => 0,
        }
    }
}

} // verus!
