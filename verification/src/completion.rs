//! The completion engine: at most one live completion computation per input
//! site.
//!
//! A site moves `Idle -> Requested -> {Completed, Cancelled}`. Issuing a new
//! request while a prior one is outstanding cancels the prior request's
//! token before a fresh one is handed out, so a newer request logically
//! supersedes an older one for the same site. Completion results are
//! advisory: an empty candidate list means "show no suggestions", and a
//! failure to compute degrades to no suggestions rather than crashing the
//! editing surface.

use vstd::prelude::*;

use crate::cancel::CancellationToken;
use crate::command::{
    argument_views, ArgumentCompletion, CommandContext, CompletionModel, SlashCommand,
};

verus! {

/// Where one input site's completion request stands.
pub enum CompletionState {
    /// No request has been issued, or the last one was consumed.
    Idle,
    /// A request is outstanding; its computation has not resolved.
    Requested,
    /// The last request resolved with these candidates (possibly none).
    Completed(Vec<ArgumentCompletion>),
    /// The last request was abandoned through its token; any result it
    /// produced was discarded.
    Cancelled,
}

/// One input site's completion session: the request state and the token of
/// the live request, through which the caller abandons stale work.
pub struct CompletionSite {
    pub state: CompletionState,
    pub token: CancellationToken,
}

impl CompletionSite {
    /// A fresh site with no request outstanding.
    pub fn new() -> (site: CompletionSite)
        ensures
            site.state is Idle,
            !site.token.spec_is_set(),
    {
        CompletionSite { state: CompletionState::Idle, token: CancellationToken::new() }
    }

    /// Issues a new completion request for this site.
    ///
    /// When a prior request is still outstanding its token is cancelled
    /// before the new request is issued — at most one live computation per
    /// site — and handed back so the caller can observe the supersession.
    /// The site is left with an outstanding request and a fresh, unset
    /// token.
    pub fn begin_request(&mut self) -> (superseded: Option<CancellationToken>)
        ensures
            final(self).state is Requested,
            !final(self).token.spec_is_set(),
            old(self).state is Requested ==> superseded == Some(old(self).token.spec_set()),
            old(self).state is Requested ==> (superseded matches Some(token)
                && token.spec_is_set()),
            !(old(self).state is Requested) ==> superseded is None,
    {
        let superseded: Option<CancellationToken> = match self.state {
            CompletionState::Requested => {
                self.token.set();
                Some(self.token)
            },
            _ => None,
        };
        self.state = CompletionState::Requested;
        self.token = CancellationToken::new();
        superseded
    }

    /// Requests cancellation of the outstanding computation — the user kept
    /// typing or dismissed the panel. Cooperative: only the token changes;
    /// the request resolves when it next resumes.
    pub fn cancel(&mut self)
        ensures
            final(self).state == old(self).state,
            *final(self) == (CompletionSite { token: old(self).token.spec_set(), ..*old(self) }),
            final(self).token.spec_is_set(),
    {
        self.token.set();
    }

    /// Resumes the outstanding computation against the command and resolves
    /// the site.
    ///
    /// A token set before this resumption abandons the request: the site
    /// becomes `Cancelled` and whatever the command would have produced is
    /// discarded. Otherwise the command's candidates are taken as computed;
    /// a failure inside the command degrades to no suggestions rather than
    /// surfacing an error.
    pub fn resolve<Command: SlashCommand>(
        &mut self,
        command: &Command,
        arguments: &Vec<String>,
        context: &CommandContext,
    )
        requires
            old(self).state is Requested,
        ensures
            final(self).token == old(self).token,
            old(self).token.spec_is_set() ==> final(self).state is Cancelled,
            !old(self).token.spec_is_set() ==> match command.spec_completions(
                argument_views(arguments@),
                *context,
            ) {
                Ok(modeled) => final(self).state matches CompletionState::Completed(candidates)
                    && candidates@.map_values(|candidate: ArgumentCompletion| candidate@)
                    == modeled,
                Err(_) => final(self).state matches CompletionState::Completed(candidates)
                    && candidates@.len() == 0,
            },
    {
        if self.token.is_set() {
            self.state = CompletionState::Cancelled;
            return ;
        }
        let result = command.complete_argument(arguments, &self.token, context);
        match result {
            Ok(candidates) => {
                self.state = CompletionState::Completed(candidates);
            },
            Err(_) => {
                let none: Vec<ArgumentCompletion> = Vec::new();
                self.state = CompletionState::Completed(none);
            },
        }
    }

    /// The candidates to show for this site: the resolved ones, or none
    /// while no request has completed.
    pub fn suggestions(&self) -> (candidates: Vec<ArgumentCompletion>)
        ensures
            self.state matches CompletionState::Completed(resolved)
                ==> candidates@.map_values(|candidate: ArgumentCompletion| candidate@)
                == resolved@.map_values(|candidate: ArgumentCompletion| candidate@),
            !(self.state is Completed) ==> candidates@.len() == 0,
    {
        match &self.state {
            CompletionState::Completed(resolved) => {
                let mut candidates: Vec<ArgumentCompletion> = Vec::new();
                let mut index: usize = 0;
                while index < resolved.len()
                    invariant
                        index <= resolved.len(),
                        candidates@.len() == index,
                        forall|i: int|
                            0 <= i < index ==> #[trigger] candidates@[i]@ == resolved@[i]@,
                    decreases resolved.len() - index,
                {
                    candidates.push(resolved[index].clone());
                    index = index + 1;
                }
                proof {
                    assert(candidates@.map_values(|candidate: ArgumentCompletion| candidate@)
                        =~= resolved@.map_values(|candidate: ArgumentCompletion| candidate@));
                }
                candidates
            },
            _ => Vec::new(),
        }
    }
}

} // verus!
