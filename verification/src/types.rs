//! Common types of the agent.

use vstd::prelude::*;
use crate::scheduler::text::{copy_texts, texts};

verus! {

/// Status of a module.
#[derive(Debug, PartialEq, Eq)]
pub enum ModuleStatus {
    Active,
    Inactive,
    /// The module failed, with the message of the failure.
    Error(String),
}

/// A module status over sequences of characters.
pub enum ModuleStatusView {
    Active,
    Inactive,
    Error(Seq<char>),
}

impl View for ModuleStatus {
    type V = ModuleStatusView;

    open spec fn view(&self) -> ModuleStatusView {
        match *self {
            ModuleStatus::Active => ModuleStatusView::Active,
            ModuleStatus::Inactive => ModuleStatusView::Inactive,
            ModuleStatus::Error(m) => ModuleStatusView::Error(m@),
        }
    }
}

impl Clone for ModuleStatus {
    fn clone(&self) -> (r: Self)
        ensures
            r@ == self@,
    {
        match self {
            ModuleStatus::Active => ModuleStatus::Active,
            ModuleStatus::Inactive => ModuleStatus::Inactive,
            ModuleStatus::Error(m) => ModuleStatus::Error(m.clone()),
        }
    }
}

/// Description of a module.
#[derive(Debug, PartialEq, Eq)]
pub struct ModuleInfo {
    pub name: String,
    pub version: String,
    pub description: String,
    pub permissions: Vec<String>,
    pub status: ModuleStatus,
}

/// A module description over sequences of characters.
pub struct ModuleInfoView {
    pub name: Seq<char>,
    pub version: Seq<char>,
    pub description: Seq<char>,
    pub permissions: Seq<Seq<char>>,
    pub status: ModuleStatusView,
}

impl View for ModuleInfo {
    type V = ModuleInfoView;

    open spec fn view(&self) -> ModuleInfoView {
        ModuleInfoView {
            name: self.name@,
            version: self.version@,
            description: self.description@,
            permissions: texts(self.permissions@),
            status: self.status@,
        }
    }
}

impl Clone for ModuleInfo {
    fn clone(&self) -> (r: Self)
        ensures
            r@ == self@,
    {
        ModuleInfo {
            name: self.name.clone(),
            version: self.version.clone(),
            description: self.description.clone(),
            permissions: copy_texts(&self.permissions),
            status: self.status.clone(),
        }
    }
}

} // verus!
