//! The tunnel client application's state: ports, identity, tunnel status,
//! the capped log ring and its scroll position, and the two-field
//! configuration editor. Every state change is decided here; the terminal,
//! the timer and the process that actually runs the tunnel live outside and
//! feed these methods.

use vstd::prelude::*;
use vstd::string::StrSliceExecFns;
use crate::config::{Config, DEFAULT_LOCAL_PORT, DEFAULT_RELAY_PORT};
use crate::msg::{clone_domain, opt_text, wire_text};
use crate::text::{all_digits, dec_value, parse_u16, spec_dec, u16_to_string};

verus! {

broadcast use vstd::string::group_string_axioms;

/// How many log lines are kept; older lines fall off the front.
pub const LOG_CAP: usize = 1000;

/// What the status area of the interface is doing.
#[derive(Clone, Copy, Debug, PartialEq, Eq, Structural)]
pub enum AppMode {
    /// Showing tunnel status.
    Normal,
    /// Editing the local port.
    ConfigPort,
    /// Editing the relay port.
    ConfigServerPort,
}

/// The application's state, apart from the live process and socket handles
/// the runtime owns.
#[derive(Debug)]
pub struct App {
    /// The local service to expose.
    pub port: u16,
    /// Custom hostname to register with, if any.
    pub domain: Option<String>,
    /// The relay's control port.
    pub server_port: u16,
    /// Whether a tunnel is currently up.
    pub tunnel_active: bool,
    /// The public URL of the running tunnel.
    pub tunnel_url: Option<String>,
    /// Status lines, oldest first, at most [`LOG_CAP`].
    pub logs: Vec<String>,
    /// How many lines up from the latest the view is scrolled.
    pub log_offset: usize,
    /// This client's identifier, fixed for the application's lifetime.
    pub client_id: String,
    /// The failure shown when the tunnel could not start.
    pub connection_error: Option<String>,
    /// What the status area is doing.
    pub mode: AppMode,
    /// The settings as they would be saved.
    pub config: Config,
    /// The digits typed into the configuration editor.
    pub input_buffer: String,
}

/// A log line as [`App::add_log`] writes it: a bracketed eight-character
/// clock stamp, a space, then the message.
pub open spec fn log_entry_for(e: Seq<char>, message: Seq<char>) -> bool {
    &&& e.len() == message.len() + 11
    &&& e.subrange(11, e.len() as int) == message
    &&& e[0] == '['
    &&& e[9] == ']'
    &&& e[10] == ' '
}

/// One line for `message` was appended; the cap dropped the oldest line if
/// it had to.
pub open spec fn logs_appended(pre: Seq<String>, post: Seq<String>, message: Seq<char>) -> bool {
    &&& post.len() == if pre.len() + 1 > LOG_CAP {
        LOG_CAP as int
    } else {
        (pre.len() + 1) as int
    }
    &&& log_entry_for(post.last()@, message)
    &&& if pre.len() + 1 > LOG_CAP {
        post.drop_last() == pre.drop_first()
    } else {
        post.drop_last() == pre
    }
}

/// Everything but the log ring is as it was.
pub open spec fn only_logs_differ(pre: App, post: App) -> bool {
    &&& post.port == pre.port
    &&& post.domain == pre.domain
    &&& post.server_port == pre.server_port
    &&& post.tunnel_active == pre.tunnel_active
    &&& post.tunnel_url == pre.tunnel_url
    &&& post.log_offset == pre.log_offset
    &&& post.client_id == pre.client_id
    &&& post.connection_error == pre.connection_error
    &&& post.mode == pre.mode
    &&& post.config == pre.config
    &&& post.input_buffer == pre.input_buffer
}

/// Text that names a port a user may set: digits, and a value in range and
/// above zero.
pub open spec fn valid_port_text(s: Seq<char>) -> bool {
    s.len() > 0 && all_digits(s) && 0 < dec_value(s) <= u16::MAX
}

/// Relies on uuid::Uuid::new_v4 and its Display form: a fresh random
/// identifier in the hyphenated lowercase form, 36 ASCII characters.
#[verifier::external_body]
fn fresh_client_id() -> (r: String)
    ensures
        r@.len() == 36,
        vstd::utf8::is_ascii_chars(r@),
{
    uuid::Uuid::new_v4().to_string()
}

/// Relies on chrono::Local::now and its formatter: the local time of day as
/// zero-padded `HH:MM:SS`, 8 ASCII characters.
#[verifier::external_body]
fn local_clock_hms() -> (r: String)
    ensures
        r@.len() == 8,
        vstd::utf8::is_ascii_chars(r@),
{
    chrono::Local::now().format("%H:%M:%S").to_string()
}

impl App {
    /// The log ring respects its cap and the identity is wire-ready.
    pub open spec fn wf(self) -> bool {
        &&& self.logs@.len() <= LOG_CAP
        &&& wire_text(self.client_id@)
        &&& self.client_id@.len() == 36
    }

    /// A fresh application: loaded settings combined with command-line
    /// overrides, a newly drawn client id, no tunnel, nothing logged.
    pub fn new(port: u16, domain: Option<String>, server_port: u16, loaded: Config) -> (r: App)
        ensures
            r.wf(),
            r.port == if port != DEFAULT_LOCAL_PORT {
                port
            } else {
                loaded.port
            },
            r.server_port == if server_port != DEFAULT_RELAY_PORT {
                server_port
            } else {
                loaded.server_port
            },
            opt_text(r.domain) == if domain is Some {
                opt_text(domain)
            } else {
                opt_text(loaded.domain)
            },
            r.config.port == r.port,
            r.config.server_port == r.server_port,
            opt_text(r.config.domain) == opt_text(r.domain),
            !r.tunnel_active,
            r.tunnel_url is None,
            r.logs@.len() == 0,
            r.log_offset == 0,
            r.connection_error is None,
            r.mode is Normal,
            r.input_buffer@.len() == 0,
    {
        let merged = Config::merged(port, domain, server_port, loaded);
        let domain = clone_domain(&merged.domain);
        App {
            port: merged.port,
            domain,
            server_port: merged.server_port,
            tunnel_active: false,
            tunnel_url: None,
            logs: Vec::new(),
            log_offset: 0,
            client_id: fresh_client_id(),
            connection_error: None,
            mode: AppMode::Normal,
            config: merged,
            input_buffer: String::new(),
        }
    }

    /// Appends a clock-stamped line for `message`, dropping the oldest line
    /// once the ring is full.
    pub fn add_log(&mut self, message: &String)
        requires
            old(self).wf(),
        ensures
            final(self).wf(),
            only_logs_differ(*old(self), *final(self)),
            logs_appended(old(self).logs@, final(self).logs@, message@),
    {
        let ts = local_clock_hms();
        let mut entry = String::from_str("[");
        entry.append(ts.as_str());
        entry.append("] ");
        entry.append(message.as_str());
        proof {
            reveal_strlit("[");
            reveal_strlit("] ");
            assert(entry@.len() == 11 + message@.len());
            assert(entry@.subrange(11, entry@.len() as int) =~= message@);
            assert(entry@[0] == "["@[0]);
            assert("["@[0] == '[');
            assert(entry@[9] == "] "@[0]);
            assert("] "@[0] == ']');
            assert(entry@[10] == "] "@[1]);
            assert("] "@[1] == ' ');
        }
        let ghost pre_logs = self.logs@;
        self.logs.push(entry);
        if self.logs.len() > LOG_CAP {
            self.logs.remove(0);
            proof {
                assert(self.logs@ =~= pre_logs.push(entry).drop_first());
                assert(self.logs@.drop_last() =~= pre_logs.drop_first());
                assert(self.logs@.last() == entry);
            }
        } else {
            proof {
                assert(self.logs@.drop_last() =~= pre_logs);
            }
        }
    }

    /// Scrolls the log view one line further into the past, never beyond
    /// what is kept.
    pub fn scroll_logs_up(&mut self)
        requires
            old(self).wf(),
        ensures
            final(self).wf(),
            final(self).log_offset == if old(self).log_offset < old(self).logs@.len() {
                old(self).log_offset + 1
            } else {
                old(self).log_offset as int
            },
            final(self).logs == old(self).logs,
            final(self).mode == old(self).mode,
            final(self).port == old(self).port,
            final(self).server_port == old(self).server_port,
    {
        if self.log_offset < self.logs.len() {
            self.log_offset = self.log_offset + 1;
        }
    }

    /// Scrolls the log view one line back toward the present.
    pub fn scroll_logs_down(&mut self)
        requires
            old(self).wf(),
        ensures
            final(self).wf(),
            final(self).log_offset == if old(self).log_offset > 0 {
                old(self).log_offset - 1
            } else {
                0
            },
            final(self).logs == old(self).logs,
            final(self).mode == old(self).mode,
            final(self).port == old(self).port,
            final(self).server_port == old(self).server_port,
    {
        if self.log_offset > 0 {
            self.log_offset = self.log_offset - 1;
        }
    }

    /// The log lines the view shows: the last `log_offset` lines.
    pub fn visible_logs(&self) -> (r: Vec<String>)
        ensures
            ({
                let start = if self.logs@.len() > self.log_offset {
                    self.logs@.len() - self.log_offset
                } else {
                    0
                };
                r@ == self.logs@.subrange(start as int, self.logs@.len() as int)
            }),
    {
        let start = if self.logs.len() > self.log_offset {
            self.logs.len() - self.log_offset
        } else {
            0
        };
        let n = self.logs.len();
        let mut out: Vec<String> = Vec::new();
        let mut i: usize = start;
        while i < n
            invariant
                start <= i <= n,
                n == self.logs@.len(),
                out@ =~= self.logs@.subrange(start as int, i as int),
            decreases n - i,
        {
            out.push(self.logs[i].clone());
            i = i + 1;
        }
        proof {
            assert(out@ =~= self.logs@.subrange(start as int, n as int));
        }
        out
    }

    /// Opens the local-port editor, seeded with the current value.
    pub fn enter_config_port_mode(&mut self)
        requires
            old(self).wf(),
        ensures
            final(self).wf(),
            final(self).mode is ConfigPort,
            final(self).input_buffer@ == spec_dec(old(self).port as nat),
            final(self).port == old(self).port,
            final(self).server_port == old(self).server_port,
            final(self).config == old(self).config,
            final(self).logs == old(self).logs,
    {
        self.mode = AppMode::ConfigPort;
        self.input_buffer = u16_to_string(self.port);
    }

    /// Opens the relay-port editor, seeded with the current value.
    pub fn enter_config_server_port_mode(&mut self)
        requires
            old(self).wf(),
        ensures
            final(self).wf(),
            final(self).mode is ConfigServerPort,
            final(self).input_buffer@ == spec_dec(old(self).server_port as nat),
            final(self).port == old(self).port,
            final(self).server_port == old(self).server_port,
            final(self).config == old(self).config,
            final(self).logs == old(self).logs,
    {
        self.mode = AppMode::ConfigServerPort;
        self.input_buffer = u16_to_string(self.server_port);
    }

    /// Leaves the editor without applying anything.
    pub fn exit_config_mode(&mut self)
        requires
            old(self).wf(),
        ensures
            final(self).wf(),
            final(self).mode is Normal,
            final(self).input_buffer@.len() == 0,
            final(self).port == old(self).port,
            final(self).server_port == old(self).server_port,
            final(self).config == old(self).config,
            final(self).logs == old(self).logs,
            final(self).domain == old(self).domain,
            final(self).tunnel_active == old(self).tunnel_active,
            final(self).tunnel_url == old(self).tunnel_url,
            final(self).log_offset == old(self).log_offset,
            final(self).client_id == old(self).client_id,
            final(self).connection_error == old(self).connection_error,
    {
        self.mode = AppMode::Normal;
        self.input_buffer = String::new();
    }

    /// Applies the editor's digits to the field being edited: a value in
    /// range and above zero is taken over into the live state and the
    /// settings — the caller should then persist them — an invalid one is
    /// only logged. Either way the editor closes.
    pub fn apply_config(&mut self) -> (save: bool)
        requires
            old(self).wf(),
        ensures
            final(self).wf(),
            final(self).mode is Normal,
            final(self).input_buffer@.len() == 0,
            final(self).domain == old(self).domain,
            final(self).tunnel_active == old(self).tunnel_active,
            final(self).tunnel_url == old(self).tunnel_url,
            final(self).log_offset == old(self).log_offset,
            final(self).client_id == old(self).client_id,
            final(self).connection_error == old(self).connection_error,
            final(self).config.domain == old(self).config.domain,
            ({
                let pre = *old(self);
                let post = *final(self);
                match pre.mode {
                    AppMode::Normal => post.port == pre.port && post.server_port == pre.server_port
                        && post.config == pre.config && post.logs == pre.logs && save == false,
                    AppMode::ConfigPort => post.server_port == pre.server_port
                        && post.config.server_port == pre.config.server_port && if valid_port_text(
                        pre.input_buffer@,
                    ) {
                        post.port as int == dec_value(pre.input_buffer@) && post.config.port
                            == post.port && save == true
                    } else {
                        post.port == pre.port && post.config.port == pre.config.port && save
                            == false
                    },
                    AppMode::ConfigServerPort => post.port == pre.port && post.config.port
                        == pre.config.port && if valid_port_text(pre.input_buffer@) {
                        post.server_port as int == dec_value(pre.input_buffer@)
                            && post.config.server_port == post.server_port && save == true
                    } else {
                        post.server_port == pre.server_port && post.config.server_port
                            == pre.config.server_port && save == false
                    },
                }
            }),
    {
        let mut changed = false;
        match self.mode {
            AppMode::ConfigPort => {
                match parse_u16(&self.input_buffer) {
                    Some(p) => {
                        if p > 0 {
                            self.port = p;
                            self.config.port = p;
                            let mut m = String::from_str("Port updated to: ");
                            let ptext = u16_to_string(p);
                            m.append(ptext.as_str());
                            self.add_log(&m);
                            changed = true;
                        } else {
                            let m = String::from_str("Invalid port: must be greater than 0");
                            self.add_log(&m);
                        }
                    },
                    None => {
                        let m = String::from_str("Invalid port number");
                        self.add_log(&m);
                    },
                }
            },
            AppMode::ConfigServerPort => {
                match parse_u16(&self.input_buffer) {
                    Some(p) => {
                        if p > 0 {
                            self.server_port = p;
                            self.config.server_port = p;
                            let mut m = String::from_str("Server port updated to: ");
                            let ptext = u16_to_string(p);
                            m.append(ptext.as_str());
                            self.add_log(&m);
                            changed = true;
                        } else {
                            let m = String::from_str("Invalid port: must be greater than 0");
                            self.add_log(&m);
                        }
                    },
                    None => {
                        let m = String::from_str("Invalid port number");
                        self.add_log(&m);
                    },
                }
            },
            AppMode::Normal => {},
        }
        self.exit_config_mode();
        changed
    }

    /// Takes one typed character while an editor is open: digits are
    /// appended, backspace and delete remove the last digit, anything else
    /// is ignored. Outside the editors nothing happens.
    pub fn handle_key_input(&mut self, key_char: char)
        requires
            old(self).wf(),
        ensures
            final(self).wf(),
            final(self).mode == old(self).mode,
            final(self).port == old(self).port,
            final(self).server_port == old(self).server_port,
            final(self).config == old(self).config,
            final(self).logs == old(self).logs,
            final(self).domain == old(self).domain,
            final(self).tunnel_active == old(self).tunnel_active,
            final(self).tunnel_url == old(self).tunnel_url,
            final(self).log_offset == old(self).log_offset,
            final(self).client_id == old(self).client_id,
            final(self).connection_error == old(self).connection_error,
            final(self).input_buffer@ == if old(self).mode is Normal {
                old(self).input_buffer@
            } else if '0' <= key_char <= '9' {
                old(self).input_buffer@.push(key_char)
            } else if key_char == '\u{8}' || key_char == '\u{7f}' {
                if old(self).input_buffer@.len() > 0 {
                    old(self).input_buffer@.drop_last()
                } else {
                    old(self).input_buffer@
                }
            } else {
                old(self).input_buffer@
            },
    {
        if self.mode == AppMode::Normal {
            return;
        }
        if key_char >= '0' && key_char <= '9' {
            let mut digit_bytes: Vec<u8> = Vec::new();
            digit_bytes.push(key_char as u8);
            proof {
                assert(digit_bytes@[0] < 128);
            }
            let d = crate::text::string_from_ascii(digit_bytes);
            self.input_buffer.append(d.as_str());
            proof {
                assert(self.input_buffer@ =~= old(self).input_buffer@.push(key_char));
            }
        } else if key_char == '\u{8}' || key_char == '\u{7f}' {
            let n = self.input_buffer.as_str().unicode_len();
            if n > 0 {
                let shorter = self.input_buffer.as_str().substring_char(0, n - 1).to_owned();
                self.input_buffer = shorter;
                proof {
                    assert(self.input_buffer@ =~= old(self).input_buffer@.drop_last());
                }
            }
        }
    }

    /// Notes that a tunnel start is underway: clears any old failure and
    /// logs the attempt.
    pub fn tunnel_starting(&mut self)
        requires
            old(self).wf(),
        ensures
            final(self).wf(),
            final(self).connection_error is None,
            final(self).tunnel_active == old(self).tunnel_active,
            final(self).tunnel_url == old(self).tunnel_url,
            final(self).port == old(self).port,
            final(self).server_port == old(self).server_port,
            final(self).mode == old(self).mode,
            logs_appended(old(self).logs@, final(self).logs@, "Starting tunnel..."@),
    {
        self.connection_error = None;
        let m = String::from_str("Starting tunnel...");
        self.add_log(&m);
    }

    /// Records a tunnel that came up under `url`.
    pub fn tunnel_started(&mut self, url: String)
        requires
            old(self).wf(),
        ensures
            final(self).wf(),
            final(self).tunnel_active,
            final(self).tunnel_url matches Some(u) && u@ == url@,
            final(self).connection_error == old(self).connection_error,
            final(self).port == old(self).port,
            final(self).server_port == old(self).server_port,
            final(self).mode == old(self).mode,
            logs_appended(old(self).logs@, final(self).logs@, "Tunnel established at: "@ + url@),
    {
        let mut m = String::from_str("Tunnel established at: ");
        m.append(url.as_str());
        self.add_log(&m);
        self.tunnel_url = Some(url);
        self.tunnel_active = true;
    }

    /// Records a failed tunnel start: the failure is logged and shown.
    pub fn tunnel_failed(&mut self, error_msg: String)
        requires
            old(self).wf(),
        ensures
            final(self).wf(),
            final(self).connection_error matches Some(e) && e@ == error_msg@,
            final(self).tunnel_active == old(self).tunnel_active,
            final(self).tunnel_url == old(self).tunnel_url,
            final(self).port == old(self).port,
            final(self).server_port == old(self).server_port,
            final(self).mode == old(self).mode,
            logs_appended(old(self).logs@, final(self).logs@, error_msg@),
    {
        self.add_log(&error_msg);
        self.connection_error = Some(error_msg);
    }

    /// Records the tunnel being stopped.
    pub fn tunnel_stopped(&mut self)
        requires
            old(self).wf(),
        ensures
            final(self).wf(),
            !final(self).tunnel_active,
            final(self).tunnel_url is None,
            final(self).connection_error is None,
            final(self).port == old(self).port,
            final(self).server_port == old(self).server_port,
            final(self).mode == old(self).mode,
            logs_appended(old(self).logs@, final(self).logs@, "Tunnel stopped"@),
    {
        let m = String::from_str("Tunnel stopped");
        self.add_log(&m);
        self.tunnel_active = false;
        self.tunnel_url = None;
        self.connection_error = None;
    }
}

} // verus!
