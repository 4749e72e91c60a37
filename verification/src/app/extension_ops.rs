//! Extensions: asking the user to approve each one that waits, and listing
//! those installed. Discovering, approving and loading extensions are the
//! extension manager's, which the caller runs; this decides the prompts and
//! what the status line says.

use crate::app::state::{App, AppMode, PopupKind};
use crate::text::{concat2, concat3};
use vstd::prelude::*;

verus! {

/// What the extension manager knows of an extension.
#[derive(Debug, Clone)]
pub struct ExtensionInfo {
    /// Its name.
    pub name: String,
    /// Its version.
    pub version: String,
    /// Its author, if it names one.
    pub author: Option<String>,
    /// Its description, if it has one.
    pub description: Option<String>,
    /// The command it runs, if it declares one.
    pub command: Option<String>,
}

/// The question put to the user about an extension.
#[derive(Debug, Clone)]
pub struct ExtensionApprovalPrompt {
    /// The extension's name.
    pub name: String,
    /// Its version.
    pub version: String,
    /// Its author, if known.
    pub author: Option<String>,
    /// Its description, if known.
    pub description: Option<String>,
    /// The command it would run (`unknown` when it declares none).
    pub command: String,
}

/// The prompt asks about `ext`.
pub open spec fn prompt_for(p: ExtensionApprovalPrompt, ext: ExtensionInfo) -> bool {
    &&& p.name == ext.name
    &&& p.version == ext.version
    &&& p.author == ext.author
    &&& p.description == ext.description
    &&& p.command@ == (match ext.command {
        Some(c) => c@,
        None => "unknown"@,
    })
}

/// The state after asking about the next waiting extension, if there is
/// one: its prompt shows; otherwise nothing changes.
pub open spec fn asked_next(old: App, new: App, next: Option<ExtensionInfo>) -> bool {
    match next {
        Some(ext) => new.extension_approval_prompt matches Some(p) && prompt_for(p, ext) && new == (
        App {
            extension_approval_prompt: new.extension_approval_prompt,
            popup: Some(PopupKind::ExtensionApproval),
            ..old
        }),
        None => new == old,
    }
}

/// The text listing installed extensions, each as `name vversion`, joined
/// with `, `.
pub open spec fn extension_list(names: Seq<(Seq<char>, Seq<char>)>) -> Seq<char>
    decreases names.len(),
{
    if names.len() == 0 {
        Seq::empty()
    } else if names.len() == 1 {
        names[0].0 + " v"@ + names[0].1
    } else {
        extension_list(names.drop_last()) + ", "@ + names.last().0 + " v"@ + names.last().1
    }
}

/// The extensions as (name, version) pairs.
pub open spec fn name_versions(exts: Seq<ExtensionInfo>) -> Seq<(Seq<char>, Seq<char>)> {
    exts.map_values(|e: ExtensionInfo| (e.name@, e.version@))
}

impl App {
    /// Asks about the next extension waiting for approval, if any.
    pub fn show_next_extension_approval(&mut self, next: Option<ExtensionInfo>)
        ensures
            asked_next(*old(self), *final(self), next),
    {
        match next {
            Some(ext) => {
                let command = match ext.command {
                    Some(c) => c,
                    None => "unknown".to_owned(),
                };
                self.extension_approval_prompt = Some(
                    ExtensionApprovalPrompt {
                        name: ext.name,
                        version: ext.version,
                        author: ext.author,
                        description: ext.description,
                        command,
                    },
                );
                self.popup = Some(PopupKind::ExtensionApproval);
            },
            None => {},
        }
    }

    /// Once the extension manager has started (`started`) and found
    /// `first_pending` waiting for approval, asks about it. A manager that
    /// failed to start changes nothing.
    pub fn init_extensions(&mut self, started: Result<(), String>, first_pending: Option<ExtensionInfo>)
        ensures
            started is Err ==> *final(self) == *old(self),
            started is Ok ==> asked_next(*old(self), *final(self), first_pending),
    {
        match started {
            Ok(()) => self.show_next_extension_approval(first_pending),
            Err(_) => {},
        }
    }

    /// The extension waiting for the user's answer, if any.
    pub fn extension_approval_prompt(&self) -> (r: Option<&ExtensionApprovalPrompt>)
        ensures
            r == match self.extension_approval_prompt {
                Some(p) => Some(&p),
                None => None::<&ExtensionApprovalPrompt>,
            },
    {
        match &self.extension_approval_prompt {
            Some(p) => Some(p),
            None => None,
        }
    }

    /// Takes the user's answer about the prompted extension: `approval` is
    /// the extension manager's outcome of approving it (when `approved`).
    /// The status line says what happened, the prompt closes, and the next
    /// waiting extension (`next_pending`, as the manager lists it now) is
    /// asked about.
    pub fn handle_extension_approval(
        &mut self,
        approved: bool,
        approval: Result<(), String>,
        next_pending: Option<ExtensionInfo>,
    )
        ensures
            final(self).status@ == status_after_answer(*old(self), approved, approval),
            final(self).mode == AppMode::Normal,
            next_pending is None ==> final(self).extension_approval_prompt is None && final(
                self).popup is None,
            next_pending matches Some(ext) ==> (final(self).extension_approval_prompt matches Some(
                p) && prompt_for(p, ext)) && final(self).popup == Some(PopupKind::ExtensionApproval),
            *final(self) == (App {
                status: final(self).status,
                extension_approval_prompt: final(self).extension_approval_prompt,
                popup: final(self).popup,
                mode: AppMode::Normal,
                ..*old(self)
            }),
    {
        match &self.extension_approval_prompt {
            Some(prompt) => {
                let name = prompt.name.clone();
                if approved {
                    match approval {
                        Ok(()) => self.set_status(
                            concat3("Extension '", name.as_str(), "' approved"),
                        ),
                        Err(e) => {
                            let head = concat3("Failed to approve '", name.as_str(), "': ");
                            self.set_status(concat2(head.as_str(), e.as_str()));
                        },
                    }
                } else {
                    self.set_status(concat3("Extension '", name.as_str(), "' denied"));
                }
            },
            None => {},
        }
        self.extension_approval_prompt = None;
        self.popup = None;
        self.mode = AppMode::Normal;
        self.show_next_extension_approval(next_pending);
    }

    /// Reports the installed extensions, or why they could not be read.
    pub fn show_installed_extensions(&mut self, installed: Result<Vec<ExtensionInfo>, String>)
        ensures
            *final(self) == (App { status: final(self).status, ..*old(self) }),
            installed matches Err(e) ==> final(self).status@ == "Failed to load extensions: "@ + e@,
            installed matches Ok(v) ==> (v@.len() == 0 ==> final(self).status@
                == "No extensions installed. Use: rat ext install <user/repo>"@),
            installed matches Ok(v) ==> (v@.len() > 0 ==> final(self).status@ == "Extensions: "@
                + extension_list(name_versions(v@))),
    {
        match installed {
            Err(e) => self.set_status(concat2("Failed to load extensions: ", e.as_str())),
            Ok(v) => {
                if v.len() == 0 {
                    self.set_status(
                        "No extensions installed. Use: rat ext install <user/repo>".to_owned(),
                    );
                } else {
                    let mut text = String::new();
                    let mut i: usize = 0;
                    while i < v.len()
                        invariant
                            i <= v@.len(),
                            text@ == extension_list(name_versions(v@.take(i as int))),
                        decreases v@.len() - i,
                    {
                        let ghost pre = v@.take(i as int);
                        let ghost next = v@.take(i + 1);
                        assert(next.drop_last() =~= pre);
                        assert(name_versions(next).drop_last() =~= name_versions(pre));
                        assert(name_versions(next).last() == (v@[i as int].name@, v@[i as int].version@));
                        let item = concat3(v[i].name.as_str(), " v", v[i].version.as_str());
                        if i == 0 {
                            assert(name_versions(next).len() == 1);
                            text = item;
                        } else {
                            let sep = concat2(text.as_str(), ", ");
                            text = concat2(sep.as_str(), item.as_str());
                        }
                        i = i + 1;
                    }
                    assert(v@.take(v@.len() as int) =~= v@);
                    self.set_status(concat2("Extensions: ", text.as_str()));
                }
            },
        }
    }
}

/// The status line after an answer: approved (or why approval failed) or
/// denied, naming the prompted extension; unchanged without a prompt.
pub open spec fn status_after_answer(app: App, approved: bool, approval: Result<(), String>) -> Seq<
    char,
> {
    match app.extension_approval_prompt {
        Some(p) => if approved {
            match approval {
                Ok(_) => "Extension '"@ + p.name@ + "' approved"@,
                Err(e) => "Failed to approve '"@ + p.name@ + "': "@ + e@,
            }
        } else {
            "Extension '"@ + p.name@ + "' denied"@
        },
        None => app.status@,
    }
}

} // verus!
