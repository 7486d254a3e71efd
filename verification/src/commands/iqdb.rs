//! The `iqdb` command.

use crate::commands::lookup::Backend;
use crate::commands::lookup::Lookup;
use crate::commands::lookup::LookupView;
use crate::commands::ApplicationCommandData;
use crate::commands::CommandKind;
use crate::handle::Handle;
use crate::sauce_finder::Attachment;
use vstd::prelude::*;

verus! {

/// The declaration of the command.
pub fn get() -> (declared: Vec<ApplicationCommandData>)
    ensures
        declared.deep_view() == seq![CommandKind::Iqdb.declared()],
{
    let mut declared: Vec<ApplicationCommandData> = Vec::new();
    declared.push(Iqdb::create_command());
    assert(declared.deep_view() =~= seq![CommandKind::Iqdb.declared()]);
    declared
}

/// One invocation of `iqdb`, with what the user gave it.
#[derive(Debug)]
pub struct Iqdb {
    /// The link to search for.
    pub link: Option<String>,
    /// An attachment to search for.
    pub attachment: Option<Attachment>,
    /// Whether the message should be hidden.
    pub ephemeral: Option<bool>,
}

impl Iqdb {
    /// The command as it is declared to the platform.
    pub fn create_command() -> (data: ApplicationCommandData)
        ensures
            data@ == CommandKind::Iqdb.declared(),
    {
        CommandKind::Iqdb.create_command()
    }

    /// The lookup that serves this invocation on `handle`. The backend is
    /// out of service, so the lookup will answer with a notice and ask
    /// nothing of it.
    pub fn execute(self, handle: Handle) -> (lookup: Lookup)
        ensures
            lookup@ == LookupView::fresh(
                Backend::Iqdb,
                Backend::Iqdb.policy(),
                self.link.deep_view(),
                self.attachment.deep_view(),
                self.ephemeral,
                handle@,
            ),
    {
        let Iqdb { link, attachment, ephemeral } = self;
        Lookup::new(Backend::Iqdb, Backend::Iqdb.policy(), link, attachment, ephemeral, handle)
    }
}

} // verus!
