//! The variables that every template sees.
//!
//! Templates are rendered outside this library. What is decided here is
//! which variables a template can count on, whatever the variables of its
//! host say.

use vstd::prelude::*;

use crate::state::host::{HostConfig, HostConfigView};
use crate::text::{clone_texts, texts};

verus! {

/// The value of a template variable.
#[derive(Debug)]
pub enum Variable {
    Text(String),
    Number(u32),
    List(Vec<String>),
}

/// The mathematical value of a [`Variable`].
pub enum VariableView {
    Text(Seq<char>),
    Number(u32),
    List(Seq<Seq<char>>),
}

impl View for Variable {
    type V = VariableView;

    open spec fn view(&self) -> VariableView {
        match self {
            Variable::Text(text) => VariableView::Text(text@),
            Variable::Number(number) => VariableView::Number(*number),
            Variable::List(list) => VariableView::List(texts(list@)),
        }
    }
}

/// The names and values of a list of variables.
pub open spec fn variables(list: Seq<(String, Variable)>) -> Seq<(Seq<char>, VariableView)> {
    list.map_values(|variable: (String, Variable)| (variable.0@, variable.1@))
}

/// The variables that every template of a host sees: the name of the
/// machine as `host`, the groups of the host as `boi_groups`, and the user
/// and group of the run as `USER_ID`, `USER` and `GROUP_ID`.
pub open spec fn host_variables(
    hostname: Seq<char>,
    config: HostConfigView,
    user_id: u32,
    user: Seq<char>,
    group_id: u32,
) -> Seq<(Seq<char>, VariableView)> {
    seq![
        ("host"@, VariableView::Text(hostname)),
        ("boi_groups"@, VariableView::List(config.groups)),
        ("USER_ID"@, VariableView::Number(user_id)),
        ("USER"@, VariableView::Text(user)),
        ("GROUP_ID"@, VariableView::Number(group_id)),
    ]
}

/// The variables that every template of a host sees. They go over those
/// of the same name that the variables of the host set.
pub fn get_host_vars(hostname: &str, config: &HostConfig, user_id: u32, user: &str, group_id: u32) -> (found:
    Vec<(String, Variable)>)
    ensures
        variables(found@) == host_variables(hostname@, config@, user_id, user@, group_id),
{
    let mut found: Vec<(String, Variable)> = Vec::new();
    found.push((String::from_str("host"), Variable::Text(String::from_str(hostname))));
    found.push((String::from_str("boi_groups"), Variable::List(clone_texts(&config.groups))));
    found.push((String::from_str("USER_ID"), Variable::Number(user_id)));
    found.push((String::from_str("USER"), Variable::Text(String::from_str(user))));
    found.push((String::from_str("GROUP_ID"), Variable::Number(group_id)));
    assert(variables(found@) =~= host_variables(hostname@, config@, user_id, user@, group_id));
    found
}

} // verus!
