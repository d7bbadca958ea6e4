//! The interface's model, the messages that drive it, and the effects that
//! its update asks the surrounding program to carry out.
use vstd::prelude::*;
use crate::network::{ClientCommand, ServerEvent};
use crate::protocol::{MessageContent, UserInfo};
use crate::state::AppState;

verus! {

/// The interface state: the domain state and what only the interface keeps.
pub struct Model {
    pub state: AppState,
    pub password_visible: bool,
    pub selected_chat: Option<String>,
    pub hamburger_open: bool,
    pub is_light_theme: bool,
    pub show_settings: bool,
    pub search_query: String,
    pub search_matches: Vec<UserInfo>,
    pub expanded_image_id: Option<u128>,
}

impl Model {
    /// The model's invariant: the state is well formed, and the menu drawer
    /// and the settings panel are never open together.
    pub open spec fn wf(&self) -> bool {
        &&& self.state.wf()
        &&& !(self.hamburger_open && self.show_settings)
    }

    /// A model around `state` with every panel closed and no search.
    pub fn new(state: AppState) -> (m: Model)
        requires
            state.wf(),
        ensures
            m.wf(),
            m.state == state,
            !m.password_visible,
            m.selected_chat is None,
            !m.hamburger_open,
            !m.is_light_theme,
            !m.show_settings,
            m.search_query@ == Seq::<char>::empty(),
            m.search_matches@.len() == 0,
            m.expanded_image_id is None,
    {
        Model {
            state,
            password_visible: false,
            selected_chat: None,
            hamburger_open: false,
            is_light_theme: false,
            show_settings: false,
            search_query: String::new(),
            search_matches: Vec::new(),
            expanded_image_id: None,
        }
    }
}

/// What an image is loaded for.
#[derive(Clone, Copy, Debug, PartialEq, Eq, Structural)]
pub enum ImagePurpose {
    /// To be sent in the open chat.
    Attachment,
    /// To become the own avatar.
    Avatar,
}

/// The outcome of encrypting and signing a message's content.
#[derive(Clone, Debug)]
pub enum SealOutcome {
    Sealed { ciphertext: Vec<u8>, nonce: Vec<u8>, signature: Vec<u8> },
    /// No chat key could be had with the peer.
    NoChatKey,
    /// The content could not be serialised.
    SerializeFailed,
    /// Encryption or signing failed.
    EncryptFailed,
}

/// What drives the interface.
#[derive(Clone, Debug)]
pub enum UiMessage {
    Network(ServerEvent),
    Tick,
    MainMenuSelect(usize),
    AuthNicknameChanged(String),
    AuthUsernameChanged(String),
    AuthPasswordChanged(String),
    AuthSubmit,
    AuthTogglePasswordVisibility,
    AuthBack,
    ChatSelected(String),
    OpenNewChatScreen,
    NewChatInputChanged(String),
    NewChatSubmit,
    NewChatCancel,
    ChatViewInputChanged(String),
    ChatViewSend,
    Logout,
    PickImage,
    ImagePicked(String),
    ReadyToSendImage(String, String),
    StatusUpdate(String),
    SearchInputChanged(String),
    SearchSubmit,
    SearchResult { username: String, exists: bool },
    SearchResultSelected(String),
    SearchResultsReceived(Vec<UserInfo>),
    ExpandImage(u128),
    CloseExpandedImage,
    FetchKeysFor(String),
    KeysReceived { target: String, ed_public: Vec<u8>, x25519_public: Vec<u8> },
    ToggleTheme,
    ToggleHamburgerMenu,
    ToggleSettings,
    ServerAddressChanged(String),
    SaveServerAddress,
    ViewProfile(String),
    ProfileReceived(UserInfo),
    CloseProfile,
    OpenEditProfile,
    EditProfileBioChanged(String),
    EditProfileAvatarPicked(String),
    EditProfileAvatarReady(String),
    EditProfileSave,
    ProfileUpdated(UserInfo),
    /// A content handed out for sealing has been sealed, or could not be.
    Sealed { target: String, content: MessageContent, outcome: SealOutcome },
}

/// Work that the update leaves to the surrounding program.
#[derive(Clone, Debug)]
pub enum Effect {
    /// Hand the command to the connection.
    Send(ClientCommand),
    /// Store the session so that the next start resumes it.
    SaveLocalSession { username: String, session_id: String },
    /// Forget the stored session.
    ClearLocalSession,
    /// Store the message in the local history.
    SaveMessage(crate::protocol::AppMessage),
    /// Store the server address.
    SaveServerAddress(String),
    /// Play the notification sound and show a desktop notification.
    Notify { sender: String },
    /// Scroll the message list to its end.
    ScrollToBottom,
    /// Feed the message back into the update.
    Dispatch(UiMessage),
    /// Take the next event from the connection, if one is waiting.
    PollNetwork,
    /// Let the user pick an image file; answer with `ImagePicked`.
    PickImage,
    /// Load, shrink and encode the image at `path`.
    LoadImage { path: String, max_dim: u32, purpose: ImagePurpose },
    /// Derive the chat key with `target`, then serialise, encrypt and sign
    /// `content`; answer with `Sealed`.
    Seal { target: String, content: MessageContent },
}

/// `seq![e]` when `c` holds, else nothing.
pub open spec fn effect_if(c: bool, e: Effect) -> Seq<Effect> {
    if c {
        seq![e]
    } else {
        Seq::empty()
    }
}

}
