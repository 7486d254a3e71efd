//! The `fuzzysearch` command.

use crate::commands::lookup::Backend;
use crate::commands::lookup::Lookup;
use crate::commands::lookup::LookupView;
use crate::commands::ApplicationCommandData;
use crate::commands::CommandKind;
use crate::handle::Handle;
use crate::sauce_finder::Attachment;
use vstd::prelude::*;

verus! {

/// The declaration of the command.
pub fn get() -> (declared: Vec<ApplicationCommandData>)
    ensures
        declared.deep_view() == seq![CommandKind::FuzzySearch.declared()],
{
    let mut declared: Vec<ApplicationCommandData> = Vec::new();
    declared.push(FuzzySearch::create_command());
    assert(declared.deep_view() =~= seq![CommandKind::FuzzySearch.declared()]);
    declared
}

/// One invocation of `fuzzysearch`, with what the user gave it.
#[derive(Debug)]
pub struct FuzzySearch {
    /// The link to search for.
    pub link: Option<String>,
    /// An attachment to search for.
    pub attachment: Option<Attachment>,
    /// Whether the message should be hidden.
    pub ephemeral: Option<bool>,
}

impl FuzzySearch {
    /// The command as it is declared to the platform.
    pub fn create_command() -> (data: ApplicationCommandData)
        ensures
            data@ == CommandKind::FuzzySearch.declared(),
    {
        CommandKind::FuzzySearch.create_command()
    }

    /// The lookup that serves this invocation on `handle`. It defers the
    /// interaction and then looks at what the user gave; it takes no turn
    /// at the rate limits.
    pub fn execute(self, handle: Handle) -> (lookup: Lookup)
        ensures
            lookup@ == LookupView::fresh(
                Backend::FuzzySearch,
                Backend::FuzzySearch.policy(),
                self.link.deep_view(),
                self.attachment.deep_view(),
                self.ephemeral,
                handle@,
            ),
    {
        let FuzzySearch { link, attachment, ephemeral } = self;
        Lookup::new(Backend::FuzzySearch, Backend::FuzzySearch.policy(), link, attachment, ephemeral, handle)
    }
}

} // verus!
