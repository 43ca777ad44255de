//! The client's whole view state, one panel per concern.

use vstd::prelude::*;

use crate::config::Config;
use crate::view_model::input::InputViewModel;
use crate::view_model::log::LogViewModel;
use crate::view_model::messages::ChatMessageViewModel;
use crate::view_model::user_list::UserViewModel;

verus! {

/// Everything the client renders.
pub struct AppViewModel {
    pub log_vm: LogViewModel,
    pub input_vm: InputViewModel,
    pub user_vm: UserViewModel,
    pub msg_vm: ChatMessageViewModel,
    pub conf: Config,
}

impl AppViewModel {
    /// Fresh panels over a configuration.
    pub fn new(conf: Config) -> (r: Self)
        ensures
            r.conf == conf,
            r.log_vm.contents@.len() == 0,
            r.input_vm.text@.len() == 0 && r.input_vm.cursor == 0,
            r.user_vm.users@.len() == 0,
            r.msg_vm.messages@.len() == 0 && r.msg_vm.scroll_pos == 0 && r.msg_vm.scroll_to_pos
                == 0,
            r.input_vm.wf(),
    {
        Self {
            msg_vm: ChatMessageViewModel::new(),
            user_vm: UserViewModel::new(),
            log_vm: LogViewModel::new(),
            input_vm: InputViewModel::new(),
            conf,
        }
    }
}

} // verus!
