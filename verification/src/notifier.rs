//! Mail notification: settling credentials, vetting the recipient, choosing
//! the transport, and sorting delivery failures by their cause.

use vstd::prelude::*;
use vstd::string::StrSliceExecFns;
use vstd::string::StringExecFns;
use crate::strutil::{contains_char, contains_substr, has_substr, parse_u16, spec_parse_u16};

verus! {

/// Where and as whom mail is submitted.
#[derive(Clone, Debug)]
pub struct SmtpConfig {
    pub server: String,
    pub port: u16,
    pub username: String,
    pub password: String,
}

/// The built-in mail submission settings used when nothing is configured.
pub fn default_smtp_config() -> (r: SmtpConfig)
    ensures
        r.server@ == "smtp.qq.com"@,
        r.port == 587,
        r.username@.len() == 0,
        r.password@.len() == 0,
{
    SmtpConfig {
        server: String::from_str("smtp.qq.com"),
        port: 587,
        username: String::new(),
        password: String::new(),
    }
}

/// The port named by an environment value, or the default submission port.
pub open spec fn spec_env_port(v: Option<Seq<char>>) -> u16 {
    match v {
        Some(s) => match spec_parse_u16(s) {
            Some(p) => p,
            None => 587,
        },
        None => 587,
    }
}

/// Settles the credentials to use: a complete loaded configuration wins; an
/// incomplete one keeps its server and port and takes the missing name and
/// password from the environment when that completes them; with nothing loaded,
/// every field comes from the environment or the built-in default.
pub fn resolve_credentials(
    loaded: Option<SmtpConfig>,
    env_server: Option<String>,
    env_port: Option<String>,
    env_username: Option<String>,
    env_password: Option<String>,
) -> (r: SmtpConfig)
    ensures
        match loaded {
            Some(c) => {
                if c.username@.len() > 0 && c.password@.len() > 0 {
                    r == c
                } else {
                    {
                        let u = match env_username {
                            Some(eu) => eu,
                            None => c.username,
                        };
                        let p = match env_password {
                            Some(ep) => ep,
                            None => c.password,
                        };
                        if u@.len() > 0 && p@.len() > 0 {
                            r == (SmtpConfig {
                                server: c.server,
                                port: c.port,
                                username: u,
                                password: p,
                            })
                        } else {
                            r == c
                        }
                    }
                }
            },
            None => {
                &&& r.server@ == match env_server {
                    Some(es) => es@,
                    None => "smtp.qq.com"@,
                }
                &&& r.port == spec_env_port(
                    match env_port {
                        Some(ep) => Some(ep@),
                        None => None,
                    },
                )
                &&& r.username@ == match env_username {
                    Some(eu) => eu@,
                    None => Seq::<char>::empty(),
                }
                &&& r.password@ == match env_password {
                    Some(ep) => ep@,
                    None => Seq::<char>::empty(),
                }
            },
        },
{
    match loaded {
        Some(c) => {
            if !c.username.as_str().is_empty() && !c.password.as_str().is_empty() {
                return c;
            }
            let u = match env_username {
                Some(eu) => eu,
                None => c.username.clone(),
            };
            let p = match env_password {
                Some(ep) => ep,
                None => c.password.clone(),
            };
            if !u.as_str().is_empty() && !p.as_str().is_empty() {
                SmtpConfig { server: c.server, port: c.port, username: u, password: p }
            } else {
                c
            }
        },
        None => {
            let server = match env_server {
                Some(es) => es,
                None => String::from_str("smtp.qq.com"),
            };
            let port: u16 = match env_port {
                Some(ep) => match parse_u16(ep.as_str()) {
                    Some(p) => p,
                    None => 587,
                },
                None => 587,
            };
            let username = match env_username {
                Some(eu) => eu,
                None => String::new(),
            };
            let password = match env_password {
                Some(ep) => ep,
                None => String::new(),
            };
            SmtpConfig { server, port, username, password }
        },
    }
}

/// A failed or refused delivery, with a human-actionable hint.
#[derive(Clone, Debug)]
pub enum NotificationError {
    Configuration { message: String },
    MalformedAddress { message: String },
    Authentication { message: String },
    Connection { message: String },
    Transport { message: String },
}

impl NotificationError {
    /// The diagnostic text carried by the error.
    pub fn message(&self) -> (r: &String)
        ensures
            r == match self {
                NotificationError::Configuration { message } => message,
                NotificationError::MalformedAddress { message } => message,
                NotificationError::Authentication { message } => message,
                NotificationError::Connection { message } => message,
                NotificationError::Transport { message } => message,
            },
    {
        match self {
            NotificationError::Configuration { message } => message,
            NotificationError::MalformedAddress { message } => message,
            NotificationError::Authentication { message } => message,
            NotificationError::Connection { message } => message,
            NotificationError::Transport { message } => message,
        }
    }
}

/// Whether lettre's mailbox parser accepts the text: a name for a result that
/// depends on the characters alone.
pub uninterp spec fn is_mailbox(s: Seq<char>) -> bool;

/// Relies on lettre's `FromStr` for `Mailbox`: acceptance is a pure function of
/// the input text.
#[verifier::external_body]
fn mailbox_ok(s: &str) -> (r: bool)
    ensures
        r == is_mailbox(s@),
{
    s.parse::<lettre::message::Mailbox>().is_ok()
}

/// The sender line: a fixed display name around the account, completed with the
/// default mail domain when the account is bare.
pub open spec fn spec_from_address(u: Seq<char>) -> Seq<char> {
    if u.contains('@') {
        "RPA App <"@ + u + ">"@
    } else {
        "RPA App <"@ + u + "@qq.com>"@
    }
}

/// The guidance returned when no credentials are configured.
pub open spec fn spec_config_guidance() -> Seq<char> {
    "email not sent: configure the SMTP server first (server, port, account and authorization code), save the configuration, then run the task again"@
}

/// The complaint about a recipient address without the expected marks.
pub open spec fn spec_bad_format_msg(to: Seq<char>) -> Seq<char> {
    "the recipient address is not well formed: "@ + to
        + " (expected a form like user@example.com)"@
}

/// The hint for the common misspelling of the gmail.com domain.
pub open spec fn spec_typo_msg(to: Seq<char>) -> Seq<char> {
    "the recipient address may hold a typo: "@ + to + " (did you mean gmail.com, not gamil.com?)"@
}

/// The complaint about a sender line the mail library refuses.
pub open spec fn spec_bad_sender_msg(from: Seq<char>) -> Seq<char> {
    "the sender address is not valid: "@ + from
}

/// The complaint about a recipient the mail library refuses.
pub open spec fn spec_bad_recipient_msg(to: Seq<char>) -> Seq<char> {
    "the recipient address is not valid: "@ + to
}

/// Everything the transport needs to submit one message.
#[derive(Clone, Debug)]
pub struct EmailPlan {
    pub from_address: String,
    pub to: String,
    pub use_starttls: bool,
    pub server: String,
    pub port: u16,
    pub username: String,
    pub password: String,
}

/// Whether the server and port call for an explicit upgrade to an encrypted
/// connection rather than a direct encrypted relay.
pub open spec fn spec_use_starttls(server: Seq<char>, port: u16) -> bool {
    has_substr(server, "qq.com"@) || port == 587
}

/// Checks the credentials and the recipient, composes the sender line, and
/// picks the transport; nothing is sent yet. Fails exactly on empty
/// credentials, on a recipient without the expected marks or with the known
/// domain typo, and on addresses the mail library's parser refuses.
pub fn prepare_email(to: &String, creds: &SmtpConfig) -> (r: Result<EmailPlan, NotificationError>)
    ensures
        ({
            let from = spec_from_address(creds.username@);
            if creds.username@.len() == 0 || creds.password@.len() == 0 {
                r matches Err(NotificationError::Configuration { message }) && message@
                    == spec_config_guidance()
            } else if !to@.contains('@') || !to@.contains('.') {
                r matches Err(NotificationError::MalformedAddress { message }) && message@
                    == spec_bad_format_msg(to@)
            } else if has_substr(to@, "@gamil.com"@) {
                r matches Err(NotificationError::MalformedAddress { message }) && message@
                    == spec_typo_msg(to@)
            } else if !is_mailbox(from) {
                r matches Err(NotificationError::MalformedAddress { message }) && message@
                    == spec_bad_sender_msg(from)
            } else if !is_mailbox(to@) {
                r matches Err(NotificationError::MalformedAddress { message }) && message@
                    == spec_bad_recipient_msg(to@)
            } else {
                r matches Ok(plan) && plan.from_address@ == from && plan.to == to
                    && plan.use_starttls == spec_use_starttls(creds.server@, creds.port)
                    && plan.server == creds.server && plan.port == creds.port && plan.username
                    == creds.username && plan.password == creds.password
            }
        }),
{
    if creds.username.as_str().is_empty() || creds.password.as_str().is_empty() {
        return Err(
            NotificationError::Configuration {
                message: String::from_str(
                    "email not sent: configure the SMTP server first (server, port, account and authorization code), save the configuration, then run the task again",
                ),
            },
        );
    }
    let mut from = String::from_str("RPA App <");
    from.append(creds.username.as_str());
    if contains_char(creds.username.as_str(), '@') {
        from.append(">");
    } else {
        from.append("@qq.com>");
    }
    proof {
        assert(from@ =~= spec_from_address(creds.username@));
    }
    if !contains_char(to.as_str(), '@') || !contains_char(to.as_str(), '.') {
        let mut m = String::from_str("the recipient address is not well formed: ");
        m.append(to.as_str());
        m.append(" (expected a form like user@example.com)");
        proof {
            assert(m@ =~= spec_bad_format_msg(to@));
        }
        return Err(NotificationError::MalformedAddress { message: m });
    }
    if contains_substr(to.as_str(), "@gamil.com") {
        let mut m = String::from_str("the recipient address may hold a typo: ");
        m.append(to.as_str());
        m.append(" (did you mean gmail.com, not gamil.com?)");
        proof {
            assert(m@ =~= spec_typo_msg(to@));
        }
        return Err(NotificationError::MalformedAddress { message: m });
    }
    if !mailbox_ok(from.as_str()) {
        let mut m = String::from_str("the sender address is not valid: ");
        m.append(from.as_str());
        proof {
            assert(m@ =~= spec_bad_sender_msg(from@));
        }
        return Err(NotificationError::MalformedAddress { message: m });
    }
    if !mailbox_ok(to.as_str()) {
        let mut m = String::from_str("the recipient address is not valid: ");
        m.append(to.as_str());
        proof {
            assert(m@ =~= spec_bad_recipient_msg(to@));
        }
        return Err(NotificationError::MalformedAddress { message: m });
    }
    let use_starttls = contains_substr(creds.server.as_str(), "qq.com") || creds.port == 587;
    Ok(
        EmailPlan {
            from_address: from,
            to: to.clone(),
            use_starttls,
            server: creds.server.clone(),
            port: creds.port,
            username: creds.username.clone(),
            password: creds.password.clone(),
        },
    )
}

/// The delivery failure text around the transport's own words.
pub open spec fn spec_delivery_failed_msg(e: Seq<char>) -> Seq<char> {
    "email delivery failed: "@ + e
}

/// The authentication hint appended to a delivery failure.
pub open spec fn spec_auth_hint(e: Seq<char>) -> Seq<char> {
    spec_delivery_failed_msg(e) + " (hint: check the mailbox account and the authorization code)"@
}

/// The connection hint appended to a delivery failure.
pub open spec fn spec_connection_hint(e: Seq<char>) -> Seq<char> {
    spec_delivery_failed_msg(e) + " (hint: check the SMTP server address and port)"@
}

/// The delivery-failure text with whichever hint its wording calls for.
pub open spec fn spec_classified_msg(e: Seq<char>) -> Seq<char> {
    if has_substr(e, "authentication"@) {
        spec_auth_hint(e)
    } else if has_substr(e, "connection"@) {
        spec_connection_hint(e)
    } else {
        spec_delivery_failed_msg(e)
    }
}

/// Sorts a transport error by its text: authentication failures and connection
/// failures each get their hint, everything else is passed on as-is.
pub fn classify_send_error(e: &str) -> (r: NotificationError)
    ensures
        if has_substr(e@, "authentication"@) {
            r matches NotificationError::Authentication { message } && message@
                == spec_classified_msg(e@)
        } else if has_substr(e@, "connection"@) {
            r matches NotificationError::Connection { message } && message@
                == spec_classified_msg(e@)
        } else {
            r matches NotificationError::Transport { message } && message@
                == spec_classified_msg(e@)
        },
{
    let mut m = String::from_str("email delivery failed: ");
    m.append(e);
    if contains_substr(e, "authentication") {
        m.append(" (hint: check the mailbox account and the authorization code)");
        proof {
            assert(m@ =~= spec_auth_hint(e@));
        }
        NotificationError::Authentication { message: m }
    } else if contains_substr(e, "connection") {
        m.append(" (hint: check the SMTP server address and port)");
        proof {
            assert(m@ =~= spec_connection_hint(e@));
        }
        NotificationError::Connection { message: m }
    } else {
        NotificationError::Transport { message: m }
    }
}

/// The receipt reported for a delivered message.
pub open spec fn spec_delivery_receipt(to: Seq<char>) -> Seq<char> {
    "email sent to: "@ + to
}

/// The receipt for a message delivered to `to`.
pub fn delivery_receipt(to: &String) -> (r: String)
    ensures
        r@ == spec_delivery_receipt(to@),
{
    let mut m = String::from_str("email sent to: ");
    m.append(to.as_str());
    proof {
        assert(m@ =~= spec_delivery_receipt(to@));
    }
    m
}

} // verus!
