//! The browse overlays: each opens on data the launcher returned, keeps a
//! highlighted row or a scroll offset within its list, and closes dropping
//! its data.

use vstd::prelude::*;
use crate::aurelia::{
    AchievementJson, AccountJson, BranchJson, CloudFileJson, ConfigJson, DepotJson, DlcJson, InventoryItemJson, LaunchOptionJson,
    LibraryJson, MarketListingJson, ProtonJson, ProxyJson, RunningJson, WalletJson, CloudDirection,
};
use crate::browse::Browser;
use crate::error::{STError, describe_spec};
use crate::nav::{scroll_down, scroll_down_spec, scroll_up, wrap_next, wrap_next_spec, wrap_prev, wrap_prev_spec};
use crate::text::{concat, owned, pop_char, push_char};

verus! {

/// `Failed: ` followed by the error's description.
pub open spec fn failed_text(e: STError) -> Seq<char> {
    "Failed: "@ + describe_spec(e)
}

pub fn failed_message(e: &STError) -> (r: String)
    ensures
        r@ == failed_text(*e),
{
    let d = e.describe();
    proof {
        reveal_strlit("Failed: ");
    }
    concat("Failed: ", d.as_str())
}

/// The status line of a path prompt after the launcher's answer: `done`, or
/// the failure.
pub open spec fn outcome_text(r: Result<(), STError>) -> Seq<char> {
    match r {
        Ok(()) => "done"@,
        Err(e) => failed_text(e),
    }
}

fn outcome_message(r: &Result<(), STError>) -> (s: String)
    ensures
        s@ == outcome_text(*r),
{
    match r {
        Ok(()) => owned("done"),
        Err(e) => failed_message(e),
    }
}

/// Which path prompt a method acts on.
#[derive(Clone, Copy, PartialEq, Eq, Debug, Structural)]
pub enum PathPrompt {
    /// Relocate an install to another library.
    Move,
    /// Re-point an install at another library.
    Relink,
    /// Register an existing on-disk install.
    Import,
}

/// The state of one path prompt: whether it shows, the game it acts on,
/// the path typed so far and its status line.
#[derive(Debug, Clone)]
pub struct PromptState {
    pub show: bool,
    pub app_id: i32,
    pub path: String,
    pub status: String,
}

impl PromptState {
    /// Hidden, with no game, path or status.
    pub open spec fn is_closed(self) -> bool {
        !self.show && self.app_id == 0 && self.path@.len() == 0 && self.status@.len() == 0
    }

    /// Showing for `app_id`, with an empty path and status.
    pub open spec fn is_opened(self, app_id: i32) -> bool {
        self.show && self.app_id == app_id && self.path@.len() == 0 && self.status@.len() == 0
    }

    /// A hidden prompt with no game, path or status.
    pub fn closed() -> (p: PromptState)
        ensures
            p.is_closed(),
    {
        PromptState { show: false, app_id: 0, path: String::new(), status: String::new() }
    }

    /// Shows the prompt for `app_id`, with an empty path and status.
    pub fn open(&mut self, app_id: i32)
        ensures
            final(self).is_opened(app_id),
    {
        self.app_id = app_id;
        self.path = String::new();
        self.status = String::new();
        self.show = true;
    }
}

/// The achievements overlay's state.
#[derive(Debug, Clone)]
pub struct AchievementsPane {
    pub show: bool,
    pub list: Vec<AchievementJson>,
    pub scroll: usize,
}

impl AchievementsPane {
    pub fn closed() -> (p: AchievementsPane)
        ensures
            !p.show,
            p.list@.len() == 0,
            p.scroll == 0,
    {
        AchievementsPane { show: false, list: Vec::new(), scroll: 0 }
    }
}

impl Browser {
    /// The state of the prompt `which`.
    pub open spec fn prompt(self, which: PathPrompt) -> PromptState {
        match which {
            PathPrompt::Move => self.move_prompt,
            PathPrompt::Relink => self.relink_prompt,
            PathPrompt::Import => self.import_prompt,
        }
    }

    // --- DLC overlay ---

    /// Opens the DLC overlay on `dlc`, the DLC of `app_id`, first row
    /// highlighted.
    pub fn open_dlc(&mut self, app_id: i32, dlc: Vec<DlcJson>)
        ensures
            final(self).show_dlc,
            final(self).dlc@ == dlc@,
            final(self).dlc_app_id == app_id,
            final(self).dlc_index == 0,
    {
        self.dlc = dlc;
        self.dlc_app_id = app_id;
        self.dlc_index = 0;
        self.show_dlc = true;
    }

    pub fn close_dlc(&mut self)
        ensures
            !final(self).show_dlc,
            final(self).dlc@.len() == 0,
            final(self).dlc_index == 0,
    {
        self.show_dlc = false;
        self.dlc = Vec::new();
        self.dlc_index = 0;
    }

    /// The highlighted DLC, if any.
    pub fn selected_dlc(&self) -> (r: Option<&DlcJson>)
        ensures
            r is Some <==> self.dlc_index < self.dlc@.len(),
            r is Some ==> *r->0 == self.dlc@[self.dlc_index as int],
    {
        if self.dlc_index < self.dlc.len() {
            Some(&self.dlc[self.dlc_index])
        } else {
            None
        }
    }

    pub fn dlc_next(&mut self)
        ensures
            final(self).dlc_index == wrap_next_spec(old(self).dlc_index as nat, old(self).dlc@.len()),
    {
        self.dlc_index = wrap_next(self.dlc_index, self.dlc.len());
    }

    pub fn dlc_previous(&mut self)
        ensures
            final(self).dlc_index == wrap_prev_spec(old(self).dlc_index as nat, old(self).dlc@.len()),
    {
        self.dlc_index = wrap_prev(self.dlc_index, self.dlc.len());
    }

    /// The app id the DLC overlay shows.
    pub fn dlc_app_id(&self) -> (r: i32)
        ensures
            r == self.dlc_app_id,
    {
        self.dlc_app_id
    }

    /// Takes the re-fetched DLC after a toggle, keeping the highlight in
    /// range.
    pub fn refresh_dlc(&mut self, dlc: Vec<DlcJson>)
        ensures
            final(self).dlc@ == dlc@,
            final(self).dlc_index == (if dlc@.len() == 0 {
                0
            } else if old(self).dlc_index >= dlc@.len() {
                (dlc@.len() - 1) as usize
            } else {
                old(self).dlc_index
            }),
    {
        self.dlc = dlc;
        if self.dlc.len() == 0 {
            self.dlc_index = 0;
        } else if self.dlc_index >= self.dlc.len() {
            self.dlc_index = self.dlc.len() - 1;
        }
    }

    // --- Branches overlay ---

    /// Opens the branches overlay on `branches` of `app_id`.
    pub fn open_branches(&mut self, app_id: i32, branches: Vec<BranchJson>)
        ensures
            final(self).show_branches,
            final(self).branches@ == branches@,
            final(self).branch_app_id == app_id,
            final(self).branch_index == 0,
    {
        self.branches = branches;
        self.branch_app_id = app_id;
        self.branch_index = 0;
        self.show_branches = true;
    }

    pub fn close_branches(&mut self)
        ensures
            !final(self).show_branches,
            final(self).branches@.len() == 0,
            final(self).branch_index == 0,
    {
        self.show_branches = false;
        self.branches = Vec::new();
        self.branch_index = 0;
    }

    pub fn branch_app_id(&self) -> (r: i32)
        ensures
            r == self.branch_app_id,
    {
        self.branch_app_id
    }

    pub fn selected_branch(&self) -> (r: Option<&BranchJson>)
        ensures
            r is Some <==> self.branch_index < self.branches@.len(),
            r is Some ==> *r->0 == self.branches@[self.branch_index as int],
    {
        if self.branch_index < self.branches.len() {
            Some(&self.branches[self.branch_index])
        } else {
            None
        }
    }

    pub fn branch_next(&mut self)
        ensures
            final(self).branch_index == wrap_next_spec(old(self).branch_index as nat, old(self).branches@.len()),
    {
        self.branch_index = wrap_next(self.branch_index, self.branches.len());
    }

    pub fn branch_previous(&mut self)
        ensures
            final(self).branch_index == wrap_prev_spec(old(self).branch_index as nat, old(self).branches@.len()),
    {
        self.branch_index = wrap_prev(self.branch_index, self.branches.len());
    }

    // --- Depots, launch options, inventory, market listings ---

    /// Opens the depots overlay (an empty list when the fetch failed).
    pub fn open_depots(&mut self, depots: Vec<DepotJson>)
        ensures
            final(self).show_depots,
            final(self).depots@ == depots@,
            final(self).depots_scroll == 0,
    {
        self.depots = depots;
        self.depots_scroll = 0;
        self.show_depots = true;
    }

    pub fn close_depots(&mut self)
        ensures
            !final(self).show_depots,
            final(self).depots@.len() == 0,
            final(self).depots_scroll == 0,
    {
        self.show_depots = false;
        self.depots = Vec::new();
        self.depots_scroll = 0;
    }

    pub fn depots_scroll_down(&mut self)
        ensures
            final(self).depots_scroll == scroll_down_spec(old(self).depots_scroll as nat, old(self).depots@.len()),
    {
        self.depots_scroll = scroll_down(self.depots_scroll, self.depots.len());
    }

    pub fn depots_scroll_up(&mut self)
        ensures
            final(self).depots_scroll == (if old(self).depots_scroll > 0 { old(self).depots_scroll - 1 } else { 0 }),
    {
        self.depots_scroll = scroll_up(self.depots_scroll);
    }

    pub fn open_launch(&mut self, options: Vec<LaunchOptionJson>)
        ensures
            final(self).show_launch,
            final(self).launch_options@ == options@,
            final(self).launch_scroll == 0,
    {
        self.launch_options = options;
        self.launch_scroll = 0;
        self.show_launch = true;
    }

    pub fn close_launch(&mut self)
        ensures
            !final(self).show_launch,
            final(self).launch_options@.len() == 0,
            final(self).launch_scroll == 0,
    {
        self.show_launch = false;
        self.launch_options = Vec::new();
        self.launch_scroll = 0;
    }

    pub fn launch_scroll_down(&mut self)
        ensures
            final(self).launch_scroll == scroll_down_spec(old(self).launch_scroll as nat, old(self).launch_options@.len()),
    {
        self.launch_scroll = scroll_down(self.launch_scroll, self.launch_options.len());
    }

    pub fn launch_scroll_up(&mut self)
        ensures
            final(self).launch_scroll == (if old(self).launch_scroll > 0 { old(self).launch_scroll - 1 } else { 0 }),
    {
        self.launch_scroll = scroll_up(self.launch_scroll);
    }

    pub fn open_inventory(&mut self, items: Vec<InventoryItemJson>)
        ensures
            final(self).show_inventory,
            final(self).inventory@ == items@,
            final(self).inv_scroll == 0,
    {
        self.inventory = items;
        self.inv_scroll = 0;
        self.show_inventory = true;
    }

    pub fn close_inventory(&mut self)
        ensures
            !final(self).show_inventory,
            final(self).inventory@.len() == 0,
            final(self).inv_scroll == 0,
    {
        self.show_inventory = false;
        self.inventory = Vec::new();
        self.inv_scroll = 0;
    }

    pub fn inv_scroll_down(&mut self)
        ensures
            final(self).inv_scroll == scroll_down_spec(old(self).inv_scroll as nat, old(self).inventory@.len()),
    {
        self.inv_scroll = scroll_down(self.inv_scroll, self.inventory.len());
    }

    pub fn inv_scroll_up(&mut self)
        ensures
            final(self).inv_scroll == (if old(self).inv_scroll > 0 { old(self).inv_scroll - 1 } else { 0 }),
    {
        self.inv_scroll = scroll_up(self.inv_scroll);
    }

    pub fn open_market(&mut self, rows: Vec<MarketListingJson>)
        ensures
            final(self).show_market,
            final(self).market@ == rows@,
            final(self).market_scroll == 0,
    {
        self.market = rows;
        self.market_scroll = 0;
        self.show_market = true;
    }

    pub fn close_market(&mut self)
        ensures
            !final(self).show_market,
            final(self).market@.len() == 0,
            final(self).market_scroll == 0,
    {
        self.show_market = false;
        self.market = Vec::new();
        self.market_scroll = 0;
    }

    pub fn market_scroll_down(&mut self)
        ensures
            final(self).market_scroll == scroll_down_spec(old(self).market_scroll as nat, old(self).market@.len()),
    {
        self.market_scroll = scroll_down(self.market_scroll, self.market.len());
    }

    pub fn market_scroll_up(&mut self)
        ensures
            final(self).market_scroll == (if old(self).market_scroll > 0 { old(self).market_scroll - 1 } else { 0 }),
    {
        self.market_scroll = scroll_up(self.market_scroll);
    }

    // --- Path prompts (move / relink / import) ---

    /// Opens a path prompt for `app_id` with an empty path and status.
    fn open_prompt(&mut self, which: PathPrompt, app_id: i32)
        ensures
            final(self).prompt(which).is_opened(app_id),
            forall|w: PathPrompt| w != which ==> final(self).prompt(w) == old(self).prompt(w),
    {
        match which {
            PathPrompt::Move => self.move_prompt.open(app_id),
            PathPrompt::Relink => self.relink_prompt.open(app_id),
            PathPrompt::Import => self.import_prompt.open(app_id),
        }
    }

    /// Closes a path prompt, dropping its state.
    fn close_prompt(&mut self, which: PathPrompt)
        ensures
            final(self).prompt(which).is_closed(),
            forall|w: PathPrompt| w != which ==> final(self).prompt(w) == old(self).prompt(w),
    {
        match which {
            PathPrompt::Move => self.move_prompt = PromptState::closed(),
            PathPrompt::Relink => self.relink_prompt = PromptState::closed(),
            PathPrompt::Import => self.import_prompt = PromptState::closed(),
        }
    }

    /// Types a character into a prompt's path.
    fn prompt_push(&mut self, which: PathPrompt, c: char)
        ensures
            final(self).prompt(which).path@ == old(self).prompt(which).path@.push(c),
            final(self).prompt(which).show == old(self).prompt(which).show,
            final(self).prompt(which).app_id == old(self).prompt(which).app_id,
            final(self).prompt(which).status == old(self).prompt(which).status,
    {
        match which {
            PathPrompt::Move => push_char(&mut self.move_prompt.path, c),
            PathPrompt::Relink => push_char(&mut self.relink_prompt.path, c),
            PathPrompt::Import => push_char(&mut self.import_prompt.path, c),
        }
    }

    /// Deletes the last character of a prompt's path.
    fn prompt_pop(&mut self, which: PathPrompt)
        ensures
            final(self).prompt(which).path@ == (if old(self).prompt(which).path@.len() > 0 {
                old(self).prompt(which).path@.drop_last()
            } else {
                old(self).prompt(which).path@
            }),
            final(self).prompt(which).show == old(self).prompt(which).show,
            final(self).prompt(which).app_id == old(self).prompt(which).app_id,
            final(self).prompt(which).status == old(self).prompt(which).status,
    {
        match which {
            PathPrompt::Move => pop_char(&mut self.move_prompt.path),
            PathPrompt::Relink => pop_char(&mut self.relink_prompt.path),
            PathPrompt::Import => pop_char(&mut self.import_prompt.path),
        }
    }

    /// Records the launcher's answer to a prompt (`done` or the failure)
    /// and hands it back.
    fn prompt_finish(&mut self, which: PathPrompt, result: Result<(), STError>) -> (r: Result<(), STError>)
        ensures
            final(self).prompt(which).status@ == outcome_text(result),
            final(self).prompt(which).show == old(self).prompt(which).show,
            final(self).prompt(which).app_id == old(self).prompt(which).app_id,
            final(self).prompt(which).path == old(self).prompt(which).path,
            r == result,
    {
        let msg = outcome_message(&result);
        match which {
            PathPrompt::Move => self.move_prompt.status = msg,
            PathPrompt::Relink => self.relink_prompt.status = msg,
            PathPrompt::Import => self.import_prompt.status = msg,
        }
        result
    }

    /// Opens the move prompt for `app_id`.
    pub fn open_move(&mut self, app_id: i32)
        ensures
            final(self).move_prompt.is_opened(app_id),
            forall|w: PathPrompt| w != PathPrompt::Move ==> final(self).prompt(w) == old(self).prompt(w),
    {
        self.open_prompt(PathPrompt::Move, app_id);
    }

    /// Closes the move prompt, dropping its state.
    pub fn close_move(&mut self)
        ensures
            final(self).move_prompt.is_closed(),
            forall|w: PathPrompt| w != PathPrompt::Move ==> final(self).prompt(w) == old(self).prompt(w),
    {
        self.close_prompt(PathPrompt::Move);
    }

    /// Types a character into the move prompt's path.
    pub fn move_push(&mut self, c: char)
        ensures
            final(self).move_prompt.path@ == old(self).move_prompt.path@.push(c),
            final(self).move_prompt.show == old(self).move_prompt.show,
            final(self).move_prompt.app_id == old(self).move_prompt.app_id,
            final(self).move_prompt.status == old(self).move_prompt.status,
    {
        self.prompt_push(PathPrompt::Move, c);
    }

    /// Deletes the last character of the move prompt's path.
    pub fn move_pop(&mut self)
        ensures
            final(self).move_prompt.path@ == (if old(self).move_prompt.path@.len() > 0 {
                old(self).move_prompt.path@.drop_last()
            } else {
                old(self).move_prompt.path@
            }),
            final(self).move_prompt.show == old(self).move_prompt.show,
            final(self).move_prompt.app_id == old(self).move_prompt.app_id,
            final(self).move_prompt.status == old(self).move_prompt.status,
    {
        self.prompt_pop(PathPrompt::Move);
    }

    /// Relocates the install to the typed library folder: takes the launcher's answer for
    /// the prompt's game and path, shows it (`done`, or the failure) in the
    /// prompt, which stays open, and hands it back.
    pub fn do_move(&mut self, result: Result<(), STError>) -> (r: Result<(), STError>)
        ensures
            final(self).move_prompt.status@ == outcome_text(result),
            final(self).move_prompt.show == old(self).move_prompt.show,
            final(self).move_prompt.app_id == old(self).move_prompt.app_id,
            final(self).move_prompt.path == old(self).move_prompt.path,
            r == result,
    {
        self.prompt_finish(PathPrompt::Move, result)
    }

    /// Opens the relink prompt for `app_id`.
    pub fn open_relink(&mut self, app_id: i32)
        ensures
            final(self).relink_prompt.is_opened(app_id),
            forall|w: PathPrompt| w != PathPrompt::Relink ==> final(self).prompt(w) == old(self).prompt(w),
    {
        self.open_prompt(PathPrompt::Relink, app_id);
    }

    /// Closes the relink prompt, dropping its state.
    pub fn close_relink(&mut self)
        ensures
            final(self).relink_prompt.is_closed(),
            forall|w: PathPrompt| w != PathPrompt::Relink ==> final(self).prompt(w) == old(self).prompt(w),
    {
        self.close_prompt(PathPrompt::Relink);
    }

    /// Types a character into the relink prompt's path.
    pub fn relink_push(&mut self, c: char)
        ensures
            final(self).relink_prompt.path@ == old(self).relink_prompt.path@.push(c),
            final(self).relink_prompt.show == old(self).relink_prompt.show,
            final(self).relink_prompt.app_id == old(self).relink_prompt.app_id,
            final(self).relink_prompt.status == old(self).relink_prompt.status,
    {
        self.prompt_push(PathPrompt::Relink, c);
    }

    /// Deletes the last character of the relink prompt's path.
    pub fn relink_pop(&mut self)
        ensures
            final(self).relink_prompt.path@ == (if old(self).relink_prompt.path@.len() > 0 {
                old(self).relink_prompt.path@.drop_last()
            } else {
                old(self).relink_prompt.path@
            }),
            final(self).relink_prompt.show == old(self).relink_prompt.show,
            final(self).relink_prompt.app_id == old(self).relink_prompt.app_id,
            final(self).relink_prompt.status == old(self).relink_prompt.status,
    {
        self.prompt_pop(PathPrompt::Relink);
    }

    /// Re-points the install at the typed library folder: takes the launcher's answer for
    /// the prompt's game and path, shows it (`done`, or the failure) in the
    /// prompt, which stays open, and hands it back.
    pub fn do_relink(&mut self, result: Result<(), STError>) -> (r: Result<(), STError>)
        ensures
            final(self).relink_prompt.status@ == outcome_text(result),
            final(self).relink_prompt.show == old(self).relink_prompt.show,
            final(self).relink_prompt.app_id == old(self).relink_prompt.app_id,
            final(self).relink_prompt.path == old(self).relink_prompt.path,
            r == result,
    {
        self.prompt_finish(PathPrompt::Relink, result)
    }

    /// Opens the import prompt for `app_id`.
    pub fn open_import(&mut self, app_id: i32)
        ensures
            final(self).import_prompt.is_opened(app_id),
            forall|w: PathPrompt| w != PathPrompt::Import ==> final(self).prompt(w) == old(self).prompt(w),
    {
        self.open_prompt(PathPrompt::Import, app_id);
    }

    /// Closes the import prompt, dropping its state.
    pub fn close_import(&mut self)
        ensures
            final(self).import_prompt.is_closed(),
            forall|w: PathPrompt| w != PathPrompt::Import ==> final(self).prompt(w) == old(self).prompt(w),
    {
        self.close_prompt(PathPrompt::Import);
    }

    /// Types a character into the import prompt's path.
    pub fn import_push(&mut self, c: char)
        ensures
            final(self).import_prompt.path@ == old(self).import_prompt.path@.push(c),
            final(self).import_prompt.show == old(self).import_prompt.show,
            final(self).import_prompt.app_id == old(self).import_prompt.app_id,
            final(self).import_prompt.status == old(self).import_prompt.status,
    {
        self.prompt_push(PathPrompt::Import, c);
    }

    /// Deletes the last character of the import prompt's path.
    pub fn import_pop(&mut self)
        ensures
            final(self).import_prompt.path@ == (if old(self).import_prompt.path@.len() > 0 {
                old(self).import_prompt.path@.drop_last()
            } else {
                old(self).import_prompt.path@
            }),
            final(self).import_prompt.show == old(self).import_prompt.show,
            final(self).import_prompt.app_id == old(self).import_prompt.app_id,
            final(self).import_prompt.status == old(self).import_prompt.status,
    {
        self.prompt_pop(PathPrompt::Import);
    }

    /// Registers the install found in the typed library folder: takes the launcher's answer for
    /// the prompt's game and path, shows it (`done`, or the failure) in the
    /// prompt, which stays open, and hands it back.
    pub fn do_import(&mut self, result: Result<(), STError>) -> (r: Result<(), STError>)
        ensures
            final(self).import_prompt.status@ == outcome_text(result),
            final(self).import_prompt.show == old(self).import_prompt.show,
            final(self).import_prompt.app_id == old(self).import_prompt.app_id,
            final(self).import_prompt.path == old(self).import_prompt.path,
            r == result,
    {
        self.prompt_finish(PathPrompt::Import, result)
    }

    // --- Proton overlay ---

    /// Opens the runtimes overlay on `protons`, first row highlighted.
    pub fn open_proton(&mut self, protons: Vec<ProtonJson>)
        ensures
            final(self).show_proton,
            final(self).protons@ == protons@,
            final(self).proton_index == 0,
    {
        self.protons = protons;
        self.proton_index = 0;
        self.show_proton = true;
    }

    pub fn close_proton(&mut self)
        ensures
            !final(self).show_proton,
            !final(self).confirm_proton_uninstall,
            final(self).protons@.len() == 0,
            final(self).proton_index == 0,
    {
        self.show_proton = false;
        self.confirm_proton_uninstall = false;
        self.protons = Vec::new();
        self.proton_index = 0;
    }

    /// Takes a re-fetched runtime list, keeping the highlighted row in range.
    pub fn refresh_proton(&mut self, protons: Vec<ProtonJson>)
        ensures
            final(self).protons@ == protons@,
            final(self).proton_index == (if old(self).proton_index as int <= protons@.len() - 1 {
                old(self).proton_index as int
            } else if protons@.len() == 0 {
                0
            } else {
                protons@.len() - 1
            }),
    {
        self.protons = protons;
        let last = if self.protons.len() == 0 { 0 } else { self.protons.len() - 1 };
        if self.proton_index > last {
            self.proton_index = last;
        }
    }

    pub fn selected_proton(&self) -> (r: Option<&ProtonJson>)
        ensures
            r is Some <==> self.proton_index < self.protons@.len(),
            r is Some ==> *r->0 == self.protons@[self.proton_index as int],
    {
        if self.proton_index < self.protons.len() {
            Some(&self.protons[self.proton_index])
        } else {
            None
        }
    }

    /// Whether the highlighted runtime can be uninstalled.
    pub fn selected_proton_uninstallable(&self) -> (b: bool)
        ensures
            b == (self.proton_index < self.protons@.len()
                && self.protons@[self.proton_index as int].installed
                && self.protons@[self.proton_index as int].label@ != "Valve"@),
    {
        match self.selected_proton() {
            Some(p) => p.uninstallable(),
            None => false,
        }
    }

    /// The name of the runtime to uninstall: the highlighted one, when it
    /// can be uninstalled.
    pub fn proton_to_uninstall(&self) -> (r: Option<String>)
        ensures
            r is Some <==> (self.proton_index < self.protons@.len()
                && self.protons@[self.proton_index as int].installed
                && self.protons@[self.proton_index as int].label@ != "Valve"@),
            r is Some ==> r->0@ == self.protons@[self.proton_index as int].name@,
    {
        match self.selected_proton() {
            Some(p) => if p.uninstallable() { Some(owned(p.name.as_str())) } else { None },
            None => None,
        }
    }

    pub fn proton_next(&mut self)
        ensures
            final(self).proton_index == wrap_next_spec(old(self).proton_index as nat, old(self).protons@.len()),
    {
        self.proton_index = wrap_next(self.proton_index, self.protons.len());
    }

    pub fn proton_previous(&mut self)
        ensures
            final(self).proton_index == wrap_prev_spec(old(self).proton_index as nat, old(self).protons@.len()),
    {
        self.proton_index = wrap_prev(self.proton_index, self.protons.len());
    }

    // --- Running overlay ---

    pub fn open_running(&mut self, running: Vec<RunningJson>)
        ensures
            final(self).show_running,
            final(self).running@ == running@,
            final(self).running_index == 0,
    {
        self.running = running;
        self.running_index = 0;
        self.show_running = true;
    }

    pub fn close_running(&mut self)
        ensures
            !final(self).show_running,
            final(self).running@.len() == 0,
            final(self).running_index == 0,
    {
        self.show_running = false;
        self.running = Vec::new();
        self.running_index = 0;
    }

    pub fn selected_running(&self) -> (r: Option<&RunningJson>)
        ensures
            r is Some <==> self.running_index < self.running@.len(),
            r is Some ==> *r->0 == self.running@[self.running_index as int],
    {
        if self.running_index < self.running.len() {
            Some(&self.running[self.running_index])
        } else {
            None
        }
    }

    pub fn running_next(&mut self)
        ensures
            final(self).running_index == wrap_next_spec(old(self).running_index as nat, old(self).running@.len()),
    {
        self.running_index = wrap_next(self.running_index, self.running.len());
    }

    pub fn running_previous(&mut self)
        ensures
            final(self).running_index == wrap_prev_spec(old(self).running_index as nat, old(self).running@.len()),
    {
        self.running_index = wrap_prev(self.running_index, self.running.len());
    }

    /// Takes the re-fetched running games after a stop, keeping the highlight
    /// in range.
    pub fn refresh_running(&mut self, running: Vec<RunningJson>)
        ensures
            final(self).running@ == running@,
            final(self).running_index == (if running@.len() == 0 {
                0
            } else if old(self).running_index >= running@.len() {
                (running@.len() - 1) as usize
            } else {
                old(self).running_index
            }),
    {
        self.running = running;
        if self.running.len() == 0 {
            self.running_index = 0;
        } else if self.running_index >= self.running.len() {
            self.running_index = self.running.len() - 1;
        }
    }

    pub fn toggle_description(&mut self)
        ensures
            final(self).expand_description == !old(self).expand_description,
    {
        self.expand_description = !self.expand_description;
    }

    // --- Achievements overlay ---

    /// Opens the achievements overlay on `list`, the selected game's
    /// achievements; without a selected game nothing changes.
    pub fn open_achievements(&mut self, list: Vec<AchievementJson>) -> (opened: bool)
        ensures
            opened == (old(self).selected is Some && old(self).selected->0 < old(self).vlen()),
            opened ==> final(self).achievements.show && final(self).achievements.list@ == list@
                && final(self).achievements.scroll == 0,
            !opened ==> final(self).achievements == old(self).achievements,
    {
        if self.selected().is_none() {
            return false;
        }
        self.achievements = AchievementsPane { show: true, list, scroll: 0 };
        true
    }

    /// Closes the achievements overlay, dropping its data.
    pub fn close_achievements(&mut self)
        ensures
            !final(self).achievements.show,
            final(self).achievements.list@.len() == 0,
            final(self).achievements.scroll == 0,
    {
        self.achievements = AchievementsPane::closed();
    }

    /// Scrolls the achievements down one row (clamped).
    pub fn ach_scroll_down(&mut self)
        ensures
            final(self).achievements.scroll == scroll_down_spec(
                old(self).achievements.scroll as nat,
                old(self).achievements.list@.len(),
            ),
    {
        self.achievements.scroll = scroll_down(self.achievements.scroll, self.achievements.list.len());
    }

    /// Scrolls the achievements up one row (clamped).
    pub fn ach_scroll_up(&mut self)
        ensures
            final(self).achievements.scroll == (if old(self).achievements.scroll > 0 {
                old(self).achievements.scroll - 1
            } else {
                0
            }),
    {
        self.achievements.scroll = scroll_up(self.achievements.scroll);
    }

    // --- Cloud overlay ---

    /// Opens the cloud overlay on the result of listing the files.
    pub fn open_cloud(&mut self, files: Result<Vec<CloudFileJson>, STError>)
        ensures
            final(self).show_cloud,
            files is Ok ==> final(self).cloud_files@ == files->Ok_0@ && final(self).cloud_status@.len() == 0,
            files is Err ==> final(self).cloud_files@.len() == 0 && final(self).cloud_status@ == failed_text(files->Err_0),
    {
        self.show_cloud = true;
        self.refresh_cloud(files);
    }

    /// Takes a re-listing of the cloud files: the files and no status, or no
    /// files and the failure.
    pub fn refresh_cloud(&mut self, files: Result<Vec<CloudFileJson>, STError>)
        ensures
            final(self).show_cloud == old(self).show_cloud,
            files is Ok ==> final(self).cloud_files@ == files->Ok_0@ && final(self).cloud_status@.len() == 0,
            files is Err ==> final(self).cloud_files@.len() == 0 && final(self).cloud_status@ == failed_text(files->Err_0),
    {
        match files {
            Ok(f) => {
                self.cloud_files = f;
                self.cloud_status = String::new();
            },
            Err(e) => {
                self.cloud_files = Vec::new();
                self.cloud_status = failed_message(&e);
            },
        }
    }

    /// Takes a finished sync of the selected game's cloud files: a failed
    /// sync shows the failure; otherwise the re-listing is taken and, when
    /// it worked, the status names the direction.
    pub fn sync_cloud(&mut self, direction: CloudDirection, sync: Result<(), STError>, files: Result<Vec<CloudFileJson>, STError>)
        ensures
            sync is Err ==> final(self).cloud_status@ == failed_text(sync->Err_0) && final(self).cloud_files == old(self).cloud_files,
            sync is Ok && files is Err ==> final(self).cloud_status@ == failed_text(files->Err_0) && final(self).cloud_files@.len() == 0,
            sync is Ok && files is Ok ==> final(self).cloud_files@ == files->Ok_0@ && final(self).cloud_status@ == (match direction {
                CloudDirection::Both => "synced"@,
                CloudDirection::Down => "downloaded"@,
                CloudDirection::Up => "uploaded"@,
            }),
    {
        if let Err(e) = sync {
            self.cloud_status = failed_message(&e);
            return;
        }
        self.refresh_cloud(files);
        proof {
            reveal_strlit("Failed: ");
        }
        if self.cloud_status.as_str().unicode_len() == 0 {
            self.cloud_status = match direction {
                CloudDirection::Both => owned("synced"),
                CloudDirection::Down => owned("downloaded"),
                CloudDirection::Up => owned("uploaded"),
            };
        }
    }

    pub fn close_cloud(&mut self)
        ensures
            !final(self).show_cloud,
            final(self).cloud_files@.len() == 0,
            final(self).cloud_status@.len() == 0,
    {
        self.show_cloud = false;
        self.cloud_files = Vec::new();
        self.cloud_status = String::new();
    }

    // --- Account, settings and wallet ---

    pub fn open_account(&mut self, account: AccountJson)
        ensures
            final(self).show_account,
            final(self).account_info == Some(account),
    {
        self.account_info = Some(account);
        self.show_account = true;
    }

    /// Opens the settings overlay on the launcher configuration and the
    /// proxy setting (none when it could not be read).
    pub fn open_config(&mut self, config: ConfigJson, proxy: Option<ProxyJson>)
        ensures
            final(self).show_config,
            final(self).config_info == Some(config),
            final(self).config_proxy == proxy,
    {
        self.config_info = Some(config);
        self.config_proxy = proxy;
        self.show_config = true;
    }

    pub fn close_config(&mut self)
        ensures
            !final(self).show_config,
            final(self).config_info is None,
            final(self).config_proxy is None,
            final(self).config_proxy_input is None,
    {
        self.show_config = false;
        self.config_info = None;
        self.config_proxy = None;
        self.config_proxy_input = None;
    }

    /// Takes the re-read proxy setting.
    pub fn refresh_proxy(&mut self, proxy: Option<ProxyJson>)
        ensures
            final(self).config_proxy == proxy,
            final(self).notice == old(self).notice,
    {
        self.config_proxy = proxy;
    }

    /// Starts editing the proxy URL, prefilled with the current one.
    pub fn begin_proxy_edit(&mut self)
        ensures
            final(self).config_proxy_input is Some,
            final(self).config_proxy_input->0@ == (match old(self).config_proxy {
                Some(p) => match p.url { Some(u) => u@, None => Seq::empty() },
                None => Seq::empty(),
            }),
    {
        let current = match &self.config_proxy {
            Some(p) => match &p.url {
                Some(u) => owned(u.as_str()),
                None => String::new(),
            },
            None => String::new(),
        };
        self.config_proxy_input = Some(current);
    }

    /// Records the answer to setting or clearing the proxy (a failure becomes
    /// the notice) and the re-read setting.
    pub fn record_proxy_change(&mut self, result: Result<(), STError>, proxy: Option<ProxyJson>)
        ensures
            result is Err ==> final(self).notice is Some
                && final(self).notice->0@ == "Proxy: "@ + describe_spec(result->Err_0),
            result is Ok ==> final(self).notice == old(self).notice,
            final(self).config_proxy == proxy,
    {
        if let Err(e) = result {
            let d = e.describe();
            proof {
                reveal_strlit("Proxy: ");
            }
            self.notice = Some(concat("Proxy: ", d.as_str()));
        }
        self.config_proxy = proxy;
    }

    pub fn proxy_input_push(&mut self, c: char)
        ensures
            final(self).config_proxy_input is Some <==> old(self).config_proxy_input is Some,
            old(self).config_proxy_input is Some ==> final(self).config_proxy_input->0@ == old(self).config_proxy_input->0@.push(c),
    {
        if let Some(s) = self.config_proxy_input.as_mut() {
            push_char(s, c);
        }
    }

    pub fn proxy_input_pop(&mut self)
        ensures
            final(self).config_proxy_input is Some <==> old(self).config_proxy_input is Some,
            old(self).config_proxy_input is Some ==> final(self).config_proxy_input->0@ == (if old(self).config_proxy_input->0@.len() > 0 {
                old(self).config_proxy_input->0@.drop_last()
            } else {
                old(self).config_proxy_input->0@
            }),
    {
        if let Some(s) = self.config_proxy_input.as_mut() {
            pop_char(s);
        }
    }

    pub fn cancel_proxy_edit(&mut self)
        ensures
            final(self).config_proxy_input is None,
    {
        self.config_proxy_input = None;
    }

    /// Ends the proxy edit, handing back the trimmed URL to set (empty
    /// clears it), if an edit was open.
    pub fn commit_proxy_edit(&mut self) -> (url: Option<String>)
        ensures
            final(self).config_proxy_input is None,
            url is Some <==> old(self).config_proxy_input is Some,
            url is Some ==> url->0@ == crate::aurelia::trim_spec(old(self).config_proxy_input->0@),
    {
        match self.config_proxy_input.take() {
            Some(u) => Some(crate::aurelia::trim(u.as_str())),
            None => None,
        }
    }

    pub fn open_wallet(&mut self, wallet: WalletJson)
        ensures
            final(self).show_wallet,
            final(self).wallet_info == Some(wallet),
    {
        self.wallet_info = Some(wallet);
        self.show_wallet = true;
    }

    // --- Help overlay ---

    /// Scrolls the help overlay down one row, stopping at its last row.
    pub fn help_scroll_down(&mut self)
        ensures
            final(self).help_scroll == (if (old(self).help_scroll as int) < crate::ui::help::help_rows() - 1 {
                (old(self).help_scroll + 1) as u16
            } else {
                old(self).help_scroll
            }),
    {
        let rows = crate::ui::help::row_count();
        let max = if rows > 0 { rows - 1 } else { 0 };
        if self.help_scroll < max {
            self.help_scroll = self.help_scroll + 1;
        }
    }

    pub fn help_scroll_up(&mut self)
        ensures
            final(self).help_scroll == (if old(self).help_scroll > 0 { (old(self).help_scroll - 1) as u16 } else { 0 }),
    {
        if self.help_scroll > 0 {
            self.help_scroll = self.help_scroll - 1;
        }
    }

    // --- Install-location picker ---

    /// Opens the picker on the library folders, with the estimated install
    /// size (zero counts as unknown). Stays closed, returning `false`, when
    /// there are no folders, so the caller installs to the default.
    pub fn open_install_picker(&mut self, libraries: Vec<LibraryJson>, estimate: Option<u64>) -> (opened: bool)
        ensures
            opened == (libraries@.len() > 0),
            opened ==> {
                &&& final(self).show_install_picker
                &&& final(self).install_libraries@ == libraries@
                &&& final(self).install_estimate == (match estimate { Some(b) => if b > 0 { Some(b) } else { None }, None => None })
                &&& final(self).install_picker_index == 0
            },
            !opened ==> final(self).show_install_picker == old(self).show_install_picker,
    {
        if libraries.len() == 0 {
            return false;
        }
        self.install_libraries = libraries;
        self.install_estimate = match estimate {
            Some(b) => if b > 0 { Some(b) } else { None },
            None => None,
        };
        self.install_picker_index = 0;
        self.show_install_picker = true;
        true
    }

    pub fn close_install_picker(&mut self)
        ensures
            !final(self).show_install_picker,
            final(self).install_libraries@.len() == 0,
            final(self).install_estimate is None,
            final(self).install_picker_index == 0,
            final(self).items == old(self).items,
            final(self).selected == old(self).selected,
    {
        self.show_install_picker = false;
        self.install_libraries = Vec::new();
        self.install_estimate = None;
        self.install_picker_index = 0;
    }

    /// Whether the highlighted library has room for the install: true when
    /// the estimate or the free space is unknown; false with no highlight.
    pub fn selected_library_fits(&self) -> (b: bool)
        ensures
            b == (self.install_picker_index < self.install_libraries@.len() && ({
                let lib = self.install_libraries@[self.install_picker_index as int];
                match (self.install_estimate, lib.free_bytes) {
                    (Some(est), Some(free)) => free >= est,
                    _ => true,
                }
            })),
    {
        if self.install_picker_index < self.install_libraries.len() {
            let lib = &self.install_libraries[self.install_picker_index];
            match (self.install_estimate, lib.free_bytes) {
                (Some(est), Some(free)) => free >= est,
                _ => true,
            }
        } else {
            false
        }
    }

    pub fn install_picker_next(&mut self)
        ensures
            final(self).install_picker_index == scroll_down_spec(old(self).install_picker_index as nat, old(self).install_libraries@.len()),
    {
        self.install_picker_index = scroll_down(self.install_picker_index, self.install_libraries.len());
    }

    pub fn install_picker_previous(&mut self)
        ensures
            final(self).install_picker_index == (if old(self).install_picker_index > 0 { old(self).install_picker_index - 1 } else { 0 }),
    {
        self.install_picker_index = scroll_up(self.install_picker_index);
    }

    /// The highlighted library folder.
    pub fn selected_install_library(&self) -> (r: Option<String>)
        ensures
            r is Some <==> self.install_picker_index < self.install_libraries@.len(),
            r is Some ==> r->0@ == self.install_libraries@[self.install_picker_index as int].path@,
    {
        if self.install_picker_index < self.install_libraries.len() {
            Some(owned(self.install_libraries[self.install_picker_index].path.as_str()))
        } else {
            None
        }
    }
}

} // verus!
