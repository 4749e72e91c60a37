//! Choosing the Docker host: what confirming the selected host leads to.
//! The host list and the saved SSH logins are the caller's; this decides
//! between the local Docker, a remote host with its saved login, asking for
//! credentials, and an error, and what the status line says.

use crate::app::state::App;
use crate::text::{concat2, concat3, dec, u64_to_string};
use vstd::prelude::*;

verus! {

/// The host selected in the host list, as the list shows it.
#[derive(Debug, Clone)]
pub struct HostDisplay {
    /// The name shown.
    pub display_name: String,
    /// It is the local Docker.
    pub is_local: bool,
    /// Credentials are saved for it.
    pub has_credentials: bool,
    /// The SSH host it stands for, if any.
    pub host_id: Option<u32>,
}

/// The SSH host and the credentials saved for it.
#[derive(Debug, Clone)]
pub struct SavedLogin {
    /// The host's name or address.
    pub hostname: String,
    /// Its SSH port.
    pub port: u16,
    /// The user to log in as.
    pub username: String,
    /// The password, if one is saved.
    pub password: Option<String>,
}

/// What confirming the selected host leads to.
#[derive(Debug, Clone)]
pub enum HostChoice {
    /// No host is selected: nothing happens.
    Nothing,
    /// Switch to the local Docker.
    Local,
    /// A remote host without an SSH host behind it: the status says so.
    Failed(String),
    /// Ask for the credentials of SSH host `host_id`, with this status.
    AskCredentials {
        /// The SSH host.
        host_id: u32,
        /// The status line.
        status: String,
    },
    /// Switch to the remote host with its saved login and look for
    /// containers there.
    Connect {
        /// The SSH host.
        host_id: u32,
        /// Its name or address.
        hostname: String,
        /// Its SSH port.
        port: u16,
        /// The user.
        username: String,
        /// The name shown.
        display_name: String,
        /// The password.
        password: String,
        /// The status line.
        status: String,
    },
}

/// The login cannot be used as it is: no user, or no password.
pub open spec fn login_incomplete(l: SavedLogin) -> bool {
    l.username@.len() == 0 || (match l.password {
        Some(p) => p@.len() == 0,
        None => true,
    })
}

/// The status line when credentials are asked for: why.
pub open spec fn ask_status(host_id: u32, saved: Option<SavedLogin>) -> Seq<char> {
    match saved {
        None => "SSH host "@ + dec(host_id as nat) + " or credentials not found"@,
        Some(l) => if l.username@.len() == 0 {
            "Username is empty - prompting for credentials"@
        } else {
            "Password is required - prompting for credentials"@
        },
    }
}

/// Decides what confirming the selected host leads to. A local host is
/// switched to. A remote one needs its SSH host; with saved credentials,
/// `saved` is the SSH host's login as stored (if both are found), which is
/// used when it has a user and a non-empty password, and otherwise the
/// credentials are asked for; without saved credentials they are asked for.
pub fn docker_host_choice(selected: Option<HostDisplay>, saved: Option<SavedLogin>) -> (r:
    HostChoice)
    ensures
        selected is None ==> r is Nothing,
        selected matches Some(h) ==> ({
            &&& h.is_local ==> r is Local
            &&& (!h.is_local && h.host_id is None) ==> (r matches HostChoice::Failed(s) && s@
                == "Error: Remote host with no host_id"@)
            &&& (!h.is_local && h.host_id is Some && !h.has_credentials) ==> (
            r matches HostChoice::AskCredentials { host_id, status } && host_id == h.host_id.unwrap()
                && status@ == "No credentials saved for "@ + h.display_name@
                + " - please enter credentials"@)
            &&& (!h.is_local && h.host_id is Some && h.has_credentials && (saved is None || login_incomplete(saved.unwrap()))) ==> (
            r matches HostChoice::AskCredentials { host_id, status } && host_id == h.host_id.unwrap()
                && status@ == ask_status(h.host_id.unwrap(), saved))
            &&& (!h.is_local && h.host_id is Some && h.has_credentials && saved is Some && !login_incomplete(saved.unwrap())) ==> (
            r matches HostChoice::Connect {
                host_id,
                hostname,
                port,
                username,
                display_name,
                password,
                status,
            } && host_id == h.host_id.unwrap() && hostname == saved.unwrap().hostname && port
                == saved.unwrap().port && username == saved.unwrap().username && display_name
                == h.display_name && Some(password) == saved.unwrap().password && status@
                == "Switching to: "@ + username@ + "@"@ + hostname@ + " (discovering...)"@)
        }),
{
    let h = match selected {
        Some(h) => h,
        None => {
            return HostChoice::Nothing;
        },
    };
    if h.is_local {
        return HostChoice::Local;
    }
    let hid = match h.host_id {
        Some(id) => id,
        None => {
            return HostChoice::Failed("Error: Remote host with no host_id".to_owned());
        },
    };
    if !h.has_credentials {
        let head = concat2("No credentials saved for ", h.display_name.as_str());
        return HostChoice::AskCredentials {
            host_id: hid,
            status: concat2(head.as_str(), " - please enter credentials"),
        };
    }
    let login = match saved {
        Some(l) => l,
        None => {
            let n = u64_to_string(hid as u64);
            return HostChoice::AskCredentials {
                host_id: hid,
                status: concat3("SSH host ", n.as_str(), " or credentials not found"),
            };
        },
    };
    if login.username.as_str().unicode_len() == 0 {
        return HostChoice::AskCredentials {
            host_id: hid,
            status: "Username is empty - prompting for credentials".to_owned(),
        };
    }
    let password = match login.password {
        Some(p) => {
            if p.as_str().unicode_len() == 0 {
                return HostChoice::AskCredentials {
                    host_id: hid,
                    status: "Password is required - prompting for credentials".to_owned(),
                };
            }
            p
        },
        None => {
            return HostChoice::AskCredentials {
                host_id: hid,
                status: "Password is required - prompting for credentials".to_owned(),
            };
        },
    };
    let head = concat3("Switching to: ", login.username.as_str(), "@");
    let status = concat3(head.as_str(), login.hostname.as_str(), " (discovering...)");
    HostChoice::Connect {
        host_id: hid,
        hostname: login.hostname,
        port: login.port,
        username: login.username,
        display_name: h.display_name,
        password,
        status,
    }
}

/// A host of the host list with the name it is reached by.
#[derive(Debug, Clone)]
pub struct ListedHost {
    /// Its name or address.
    pub hostname: String,
    /// The name shown.
    pub display_name: String,
}

/// Connecting to a remote host with credentials just typed.
#[derive(Debug, Clone)]
pub struct CredentialLogin {
    /// The SSH host.
    pub host_id: u32,
    /// Its name or address.
    pub hostname: String,
    /// Its SSH port.
    pub port: u16,
    /// The user.
    pub username: String,
    /// The name shown.
    pub display_name: String,
    /// The password.
    pub password: String,
    /// The credentials are to be saved with the SSH host.
    pub save: bool,
    /// The status line.
    pub status: String,
}

/// The login that typed credentials make: none until a user and a
/// password are typed and the host asked about (`host_id`, found in the
/// list as `host`) is known. `ssh_port` is the SSH host's port, if it is
/// found; otherwise 22.
pub fn docker_credentials_login(
    username: String,
    password: String,
    save: bool,
    host_id: Option<u32>,
    host: Option<ListedHost>,
    ssh_port: Option<u16>,
) -> (r: Option<CredentialLogin>)
    ensures
        (username@.len() == 0 || password@.len() == 0 || host_id is None || host is None) ==> r is None,
        (username@.len() > 0 && password@.len() > 0 && host_id is Some && host is Some) ==> (
        r matches Some(l) && l.host_id == host_id.unwrap() && l.hostname == host.unwrap().hostname
            && l.port == (match ssh_port {
            Some(p) => p,
            None => 22u16,
        }) && l.username == username && l.display_name == host.unwrap().display_name && l.password
            == password && l.save == save && l.status@ == "Connecting to "@ + username@ + "@"@
            + host.unwrap().hostname@ + "..."@),
{
    if username.as_str().unicode_len() == 0 || password.as_str().unicode_len() == 0 {
        return None;
    }
    let id = match host_id {
        Some(id) => id,
        None => {
            return None;
        },
    };
    let h = match host {
        Some(h) => h,
        None => {
            return None;
        },
    };
    let port = match ssh_port {
        Some(p) => p,
        None => 22,
    };
    let head = concat3("Connecting to ", username.as_str(), "@");
    let status = concat3(head.as_str(), h.hostname.as_str(), "...");
    Some(
        CredentialLogin {
            host_id: id,
            hostname: h.hostname,
            port,
            username,
            display_name: h.display_name,
            password,
            save,
            status,
        },
    )
}

/// Where Docker commands run.
#[derive(Debug, Clone, PartialEq, Eq)]
pub enum DockerHost {
    /// This machine.
    Local,
    /// A host reached over SSH.
    Remote {
        /// The SSH host.
        host_id: u32,
        /// Its name or address.
        hostname: String,
        /// Its SSH port.
        port: u16,
        /// The user.
        username: String,
        /// The name shown, if one is set.
        display_name: Option<String>,
        /// The password, if known.
        password: Option<String>,
    },
}

/// The name a host is shown by: `Local`, or a remote host's display name
/// (its hostname without one).
pub open spec fn host_name_shown(h: DockerHost) -> Seq<char> {
    match h {
        DockerHost::Local => "Local"@,
        DockerHost::Remote { hostname, display_name, .. } => match display_name {
            Some(d) => d@,
            None => hostname@,
        },
    }
}

impl App {
    /// The Docker host in use.
    pub fn docker_selected_host(&self) -> (r: &DockerHost)
        ensures
            *r == self.docker_host,
    {
        &self.docker_host
    }

    /// The name the Docker host in use is shown by.
    pub fn docker_host_display_name(&self) -> (r: String)
        ensures
            r@ == host_name_shown(self.docker_host),
    {
        match &self.docker_host {
            DockerHost::Local => "Local".to_owned(),
            DockerHost::Remote { hostname, display_name, .. } => match display_name {
                Some(d) => d.clone(),
                None => hostname.clone(),
            },
        }
    }

    /// Sets the Docker host to a remote host with its password (the caller
    /// keeps the settings and looks for containers again).
    pub fn docker_set_remote_host(
        &mut self,
        host_id: u32,
        hostname: &str,
        port: u16,
        username: &str,
        password: &str,
        display_name: Option<&str>,
    )
        ensures
            final(self).docker_host matches DockerHost::Remote {
                host_id: id,
                hostname: h,
                port: p,
                username: u,
                display_name: d,
                password: pw,
            } && id == host_id && h@ == hostname@ && p == port && u@ == username@ && (
            pw matches Some(x) && x@ == password@) && (match display_name {
                Some(n) => d matches Some(x) && x@ == n@,
                None => d is None,
            }),
            final(self).status@ == "Set Docker host: "@ + username@ + "@"@ + (match display_name {
                Some(n) => n@,
                None => hostname@,
            }) + " (pwd=true)"@,
            *final(self) == (App {
                docker_host: final(self).docker_host,
                status: final(self).status,
                ..*old(self)
            }),
    {
        let shown = match display_name {
            Some(n) => n,
            None => hostname,
        };
        self.docker_host = DockerHost::Remote {
            host_id,
            hostname: hostname.to_owned(),
            port,
            username: username.to_owned(),
            display_name: match display_name {
                Some(n) => Some(n.to_owned()),
                None => None,
            },
            password: Some(password.to_owned()),
        };
        let head = concat3("Set Docker host: ", username, "@");
        self.set_status(concat3(head.as_str(), shown, " (pwd=true)"));
    }

    /// Sets the Docker host to this machine.
    pub fn docker_set_local_host(&mut self)
        ensures
            final(self).docker_host == DockerHost::Local,
            final(self).status@ == "Set Docker host: Local"@,
            *final(self) == (App {
                docker_host: DockerHost::Local,
                status: final(self).status,
                ..*old(self)
            }),
    {
        self.docker_host = DockerHost::Local;
        self.set_status("Set Docker host: Local".to_owned());
    }
}

} // verus!
