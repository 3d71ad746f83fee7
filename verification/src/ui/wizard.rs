use vstd::prelude::*;
use vstd::view::View as _;
use crate::config::AuthMethod;
use crate::state::{AppState, View, FocusState, initial_focus};
use crate::text::{has_prefix, starts_with};

verus! {

/// The four steps of the first-launch wizard.
#[derive(Debug, Clone, Copy, PartialEq, Eq, Structural)]
pub enum WizardStep {
    ServerUrl,
    Credentials,
    TestConnection,
    AudioOutput,
}

/// What the wizard's form holds.
#[derive(Debug)]
pub struct WizardState {
    pub step: WizardStep,
    pub url: String,
    pub username: String,
    pub password: String,
    pub api_key: String,
    pub auth_method: AuthMethod,
    pub audio_device: String,
    pub exclusive: bool,
    pub testing: bool,
    pub test_success: bool,
    pub test_error: String,
}

impl Default for WizardState {
    /// The first step, empty fields, token authentication, the automatic
    /// audio device in exclusive mode.
    fn default() -> (r: Self)
        ensures
            r.step == WizardStep::ServerUrl,
            r.url@.len() == 0,
            r.username@.len() == 0,
            r.password@.len() == 0,
            r.api_key@.len() == 0,
            r.auth_method == AuthMethod::Token,
            r.audio_device@ == "auto"@,
            r.exclusive,
            !r.testing,
            !r.test_success,
            r.test_error@.len() == 0,
    {
        WizardState {
            step: WizardStep::ServerUrl,
            url: String::new(),
            username: String::new(),
            password: String::new(),
            api_key: String::new(),
            auth_method: AuthMethod::Token,
            audio_device: String::from_str("auto"),
            exclusive: true,
            testing: false,
            test_success: false,
            test_error: String::new(),
        }
    }
}

/// A character that ends the authority part of a URL.
pub open spec fn ends_authority(c: char) -> bool {
    c == '/' || c == '?' || c == '#'
}

/// The index of the first `/`, `?` or `#` of `s` from index `i` on, or the
/// length of `s` when there is none.
pub open spec fn authority_end_from(s: Seq<char>, i: int) -> int
    decreases s.len() - i,
{
    if i >= s.len() {
        s.len() as int
    } else if ends_authority(s[i]) {
        i
    } else {
        authority_end_from(s, i + 1)
    }
}

/// Where the host starts in the authority `s[0..n]`: right after its last
/// `@` (which ends the user information), or at 0.
pub open spec fn host_start(s: Seq<char>, n: int) -> int
    decreases n,
{
    if n <= 0 {
        0
    } else if s[n - 1] == '@' {
        n
    } else {
        host_start(s, n - 1)
    }
}

/// `rest`, the text after `scheme://`, names a host: the host part of its
/// authority is not empty (it does not end at once or start with the
/// `:` of a port).
pub open spec fn has_host(rest: Seq<char>) -> bool {
    let e = authority_end_from(rest, 0);
    let h = host_start(rest, e);
    h < e && rest[h] != ':'
}

/// A server URL is accepted when it has the scheme `http` or `https` and a
/// host: `http://` or `https://` followed by a non-empty host.
pub open spec fn url_accepted(url: Seq<char>) -> bool {
    ||| has_prefix(url, "http://"@) && has_host(url.skip(7))
    ||| has_prefix(url, "https://"@) && has_host(url.skip(8))
}

/// Whether the text of `s` from index `start` on names a host (see
/// `has_host`).
fn host_present(s: &str, start: usize) -> (r: bool)
    requires
        start <= s@.len(),
    ensures
        r == has_host(s@.skip(start as int)),
{
    let ghost rest = s@.skip(start as int);
    let n = s.unicode_len();
    let mut i: usize = 0;
    while start + i < n && !(s.get_char(start + i) == '/' || s.get_char(start + i) == '?' || s.get_char(
        start + i,
    ) == '#')
        invariant
            n == s@.len(),
            start <= n,
            rest == s@.skip(start as int),
            start + i <= n,
            authority_end_from(rest, 0) == authority_end_from(rest, i as int),
        decreases n - start - i,
    {
        assert(rest[i as int] == s@[start + i]);
        i = i + 1;
    }
    proof {
        if start + i < n {
            assert(rest[i as int] == s@[start + i]);
        }
    }
    let e = i;
    assert(authority_end_from(rest, 0) == e);
    let mut k: usize = e;
    while k > 0 && s.get_char(start + k - 1) != '@'
        invariant
            n == s@.len(),
            start + e <= n,
            rest == s@.skip(start as int),
            k <= e,
            host_start(rest, e as int) == host_start(rest, k as int),
        decreases k,
    {
        assert(rest[k - 1] == s@[start + k - 1]);
        k = k - 1;
    }
    proof {
        if k > 0 {
            assert(rest[k - 1] == s@[start + k - 1]);
        }
    }
    assert(host_start(rest, e as int) == k);
    if k < e {
        assert(rest[k as int] == s@[start + k]);
        s.get_char(start + k) != ':'
    } else {
        false
    }
}

/// The credentials are complete: a user name, and the API key for the
/// API-key method or the password for the others.
pub open spec fn credentials_complete(w: WizardState) -> bool {
    &&& w.username@.len() > 0
    &&& if w.auth_method == AuthMethod::ApiKey {
        w.api_key@.len() > 0
    } else {
        w.password@.len() > 0
    }
}

/// The authentication method at position `i` of the wizard's drop-down.
pub open spec fn method_at(i: usize) -> AuthMethod {
    if i == 0 {
        AuthMethod::Token
    } else if i == 1 {
        AuthMethod::ApiKey
    } else {
        AuthMethod::Plain
    }
}

impl WizardState {
    /// The number of the current step, counted from 1.
    pub fn step_number(&self) -> (r: u8)
        ensures
            r == match self.step {
                WizardStep::ServerUrl => 1u8,
                WizardStep::Credentials => 2u8,
                WizardStep::TestConnection => 3u8,
                WizardStep::AudioOutput => 4u8,
            },
    {
        match self.step {
            WizardStep::ServerUrl => 1,
            WizardStep::Credentials => 2,
            WizardStep::TestConnection => 3,
            WizardStep::AudioOutput => 4,
        }
    }

    /// Whether the URL typed so far is accepted: `http://` or `https://`
    /// and a host.
    pub fn url_valid(&self) -> (r: bool)
        ensures
            r == url_accepted(self.url@),
    {
        proof {
            reveal_strlit("http://");
            reveal_strlit("https://");
        }
        let url = self.url.as_str();
        if starts_with(url, "http://") {
            proof {
                assert(!has_prefix(url@, "https://"@)) by {
                    assert(url@.subrange(0, 7)[4] == ':');
                    assert(url@[4] == ':');
                    if has_prefix(url@, "https://"@) {
                        assert(url@.subrange(0, 8)[4] == 's');
                    }
                }
            }
            host_present(url, 7)
        } else if starts_with(url, "https://") {
            host_present(url, 8)
        } else {
            false
        }
    }

    /// Whether the "URL must start with http:// or https:// and name a host"
    /// hint shows:
    /// the URL is not empty and not accepted.
    pub fn shows_url_hint(&self) -> (r: bool)
        ensures
            r == (!url_accepted(self.url@) && self.url@.len() > 0),
    {
        !self.url_valid() && self.url.as_str().unicode_len() > 0
    }

    /// Step 1: Next (clicked, or Enter) moves on to the credentials when the
    /// URL is accepted.
    pub fn submit_server_url(&mut self, next_clicked: bool, enter: bool)
        ensures
            (next_clicked || enter) && url_accepted(old(self).url@) ==> *final(self) == (WizardState {
                step: WizardStep::Credentials,
                ..*old(self)
            }),
            !((next_clicked || enter) && url_accepted(old(self).url@)) ==> *final(self) == *old(self),
    {
        let valid = self.url_valid();
        if (next_clicked || (enter && valid)) && valid {
            self.step = WizardStep::Credentials;
        }
    }

    /// The drop-down position of the current authentication method.
    pub fn auth_method_index(&self) -> (r: usize)
        ensures
            method_at(r) == self.auth_method,
            r <= 2,
    {
        match self.auth_method {
            AuthMethod::Token => 0,
            AuthMethod::ApiKey => 1,
            AuthMethod::Plain => 2,
        }
    }

    /// Picks the authentication method at drop-down position `i`.
    pub fn select_auth_method(&mut self, i: usize)
        ensures
            *final(self) == (WizardState { auth_method: method_at(i), ..*old(self) }),
    {
        self.auth_method = match i {
            0 => AuthMethod::Token,
            1 => AuthMethod::ApiKey,
            _ => AuthMethod::Plain,
        };
    }

    /// Whether the credentials are complete.
    pub fn credentials_ready(&self) -> (r: bool)
        ensures
            r == credentials_complete(*self),
    {
        let has_user = self.username.as_str().unicode_len() > 0;
        let has_secret = if self.auth_method == AuthMethod::ApiKey {
            self.api_key.as_str().unicode_len() > 0
        } else {
            self.password.as_str().unicode_len() > 0
        };
        has_user && has_secret
    }

    /// Step 2: Back returns to the URL; otherwise Next (clicked, or Enter)
    /// with complete credentials starts the connection test.
    pub fn submit_credentials(&mut self, back_clicked: bool, next_clicked: bool, enter: bool)
        ensures
            back_clicked && !((next_clicked || enter) && credentials_complete(*old(self))) ==> *final(self)
                == (WizardState { step: WizardStep::ServerUrl, ..*old(self) }),
            (next_clicked || enter) && credentials_complete(*old(self)) ==> {
                &&& final(self).step == WizardStep::TestConnection
                &&& final(self).testing
                &&& !final(self).test_success
                &&& final(self).test_error@.len() == 0
                &&& *final(self) == (WizardState {
                    step: WizardStep::TestConnection,
                    testing: true,
                    test_success: false,
                    test_error: final(self).test_error,
                    ..*old(self)
                })
            },
            !back_clicked && !((next_clicked || enter) && credentials_complete(*old(self)))
                ==> *final(self) == *old(self),
    {
        if back_clicked {
            self.step = WizardStep::ServerUrl;
        }
        let ready = self.credentials_ready();
        if (next_clicked || (enter && ready)) && ready {
            self.step = WizardStep::TestConnection;
            self.testing = true;
            self.test_success = false;
            self.test_error = String::new();
        }
    }

    /// Step 3: a pending test stores the entered server settings in the
    /// configuration and succeeds (no request is made).
    pub fn run_connection_test(&mut self, state: &mut AppState)
        ensures
            old(self).testing ==> {
                &&& *final(self) == (WizardState { testing: false, test_success: true, ..*old(self) })
                &&& final(state).config.server.url == old(self).url
                &&& final(state).config.server.username == old(self).username
                &&& final(state).config.server.password == old(self).password
                &&& final(state).config.server.api_key == old(self).api_key
                &&& final(state).config.server.auth_method == old(self).auth_method
                &&& *final(state) == (AppState {
                    config: crate::config::Config { server: final(state).config.server, ..old(state).config },
                    ..*old(state)
                })
            },
            !old(self).testing ==> *final(self) == *old(self) && *final(state) == *old(state),
    {
        if self.testing {
            self.testing = false;
            self.test_success = true;
            state.config.server.url = self.url.clone();
            state.config.server.username = self.username.clone();
            state.config.server.password = self.password.clone();
            state.config.server.api_key = self.api_key.clone();
            state.config.server.auth_method = self.auth_method;
        }
    }

    /// Step 3 buttons: after a success, Next goes on to the audio output;
    /// after a failure, Back returns to the credentials and Retry tests again.
    pub fn connection_test_buttons(&mut self, next_clicked: bool, back_clicked: bool, retry_clicked: bool)
        ensures
            old(self).test_success ==> *final(self) == if next_clicked {
                WizardState { step: WizardStep::AudioOutput, ..*old(self) }
            } else {
                *old(self)
            },
            !old(self).test_success && old(self).test_error@.len() > 0 ==> {
                let s1 = if back_clicked {
                    WizardState { step: WizardStep::Credentials, ..*old(self) }
                } else {
                    *old(self)
                };
                if retry_clicked {
                    final(self).testing && final(self).test_error@.len() == 0 && *final(self)
                        == (WizardState { testing: true, test_error: final(self).test_error, ..s1 })
                } else {
                    *final(self) == s1
                }
            },
            !old(self).test_success && old(self).test_error@.len() == 0 ==> *final(self) == *old(self),
    {
        if self.test_success {
            if next_clicked {
                self.step = WizardStep::AudioOutput;
            }
        } else if self.test_error.as_str().unicode_len() > 0 {
            if back_clicked {
                self.step = WizardStep::Credentials;
            }
            if retry_clicked {
                self.testing = true;
                self.test_error = String::new();
            }
        }
    }

    /// Step 4: Finish (clicked, or Enter) stores the audio settings, marks
    /// the wizard completed and the server configured, and shows Home with
    /// the initial focus. Returns whether the configuration must be saved.
    pub fn finish(&self, state: &mut AppState, finish_clicked: bool, enter: bool) -> (r: bool)
        ensures
            r == (finish_clicked || enter),
            r ==> {
                &&& final(state).config.audio.device == self.audio_device
                &&& final(state).config.audio.exclusive == self.exclusive
                &&& final(state).config.wizard.completed
                &&& final(state).server_configured
                &&& final(state).view_stack@ == seq![View::Home]
                &&& final(state).focus == initial_focus()
                &&& *final(state) == (AppState {
                    config: crate::config::Config {
                        audio: crate::config::AudioConfig {
                            device: self.audio_device,
                            exclusive: self.exclusive,
                            ..old(state).config.audio
                        },
                        wizard: crate::config::WizardConfig { completed: true },
                        ..old(state).config
                    },
                    server_configured: true,
                    view_stack: final(state).view_stack,
                    focus: initial_focus(),
                    ..*old(state)
                })
            },
            !r ==> *final(state) == *old(state),
    {
        if finish_clicked || enter {
            state.config.audio.device = self.audio_device.clone();
            state.config.audio.exclusive = self.exclusive;
            state.config.wizard.completed = true;
            state.server_configured = true;
            let mut stack: Vec<View> = Vec::new();
            stack.push(View::Home);
            state.view_stack = stack;
            state.focus = FocusState::default();
            true
        } else {
            false
        }
    }
}

} // verus!
