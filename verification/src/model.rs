//! The domain model: plain values that describe users and the instances they own.
//!
//! Nothing here validates anything. A value with empty strings and zero counts is
//! as good as any other; uniqueness of names and the quotas are the business of
//! whoever edits the state.

use vstd::prelude::*;

verus! {

/// The condition that a caller wants an instance to reach.
#[derive(Debug, Clone, Copy, PartialEq, Eq, Structural)]
pub enum InstanceStage {
    Pending,
    Running,
    Deleting,
}

/// The condition in which an instance was last seen. `Error` has no stage to
/// match: a failure is observed, never asked for.
#[derive(Debug, Clone, Copy, PartialEq, Eq, Structural)]
pub enum InstanceStatus {
    Pending,
    Running,
    Deleting,
    Error,
}

impl InstanceStage {
    /// The tag's name, letter for letter.
    pub open spec fn name(self) -> Seq<char> {
        match self {
            InstanceStage::Pending => "Pending"@,
            InstanceStage::Running => "Running"@,
            InstanceStage::Deleting => "Deleting"@,
        }
    }

    /// Renders the tag as its name.
    pub fn to_string(&self) -> (text: String)
        ensures
            text@ == self.name(),
    {
        match self {
            InstanceStage::Pending => "Pending".to_owned(),
            InstanceStage::Running => "Running".to_owned(),
            InstanceStage::Deleting => "Deleting".to_owned(),
        }
    }
}

impl InstanceStatus {
    /// The tag's name, letter for letter.
    pub open spec fn name(self) -> Seq<char> {
        match self {
            InstanceStatus::Pending => "Pending"@,
            InstanceStatus::Running => "Running"@,
            InstanceStatus::Deleting => "Deleting"@,
            InstanceStatus::Error => "Error"@,
        }
    }

    /// Renders the tag as its name.
    pub fn to_string(&self) -> (text: String)
        ensures
            text@ == self.name(),
    {
        match self {
            InstanceStatus::Pending => "Pending".to_owned(),
            InstanceStatus::Running => "Running".to_owned(),
            InstanceStatus::Deleting => "Deleting".to_owned(),
            InstanceStatus::Error => "Error".to_owned(),
        }
    }
}

/// One compute instance. It exists only inside the instance list of a `User`.
#[derive(Debug)]
pub struct Instance {
    pub name: String,
    pub cpu: usize,
    pub memory: usize,
    pub disk_size: usize,
    pub domain_name: String,
    pub stage: InstanceStage,
    pub status: InstanceStatus,
}

/// What an `Instance` holds, as mathematical values.
pub struct InstanceView {
    pub name: Seq<char>,
    pub cpu: nat,
    pub memory: nat,
    pub disk_size: nat,
    pub domain_name: Seq<char>,
    pub stage: InstanceStage,
    pub status: InstanceStatus,
}

impl View for Instance {
    type V = InstanceView;

    open spec fn view(&self) -> InstanceView {
        InstanceView {
            name: self.name@,
            cpu: self.cpu as nat,
            memory: self.memory as nat,
            disk_size: self.disk_size as nat,
            domain_name: self.domain_name@,
            stage: self.stage,
            status: self.status,
        }
    }
}

impl Clone for Instance {
    /// A copy that shares nothing with `self` and holds the same values.
    fn clone(&self) -> (copy: Self)
        ensures
            copy@ == self@,
    {
        Instance {
            name: self.name.clone(),
            cpu: self.cpu,
            memory: self.memory,
            disk_size: self.disk_size,
            domain_name: self.domain_name.clone(),
            stage: self.stage,
            status: self.status,
        }
    }
}

/// The views of a list of instances, in the list's order.
pub open spec fn instance_views(instances: Seq<Instance>) -> Seq<InstanceView> {
    Seq::new(instances.len(), |i: int| instances[i]@)
}

/// One user, the quotas that bound what the user may own, and the instances owned.
#[derive(Debug)]
pub struct User {
    pub username: String,
    pub password_hash: String,
    pub cpu_quota: usize,
    pub memory_quota: usize,
    pub disk_quota: usize,
    pub instance_quota: usize,
    pub instances: Vec<Instance>,
}

/// What a `User` holds, as mathematical values.
pub struct UserView {
    pub username: Seq<char>,
    pub password_hash: Seq<char>,
    pub cpu_quota: nat,
    pub memory_quota: nat,
    pub disk_quota: nat,
    pub instance_quota: nat,
    pub instances: Seq<InstanceView>,
}

impl View for User {
    type V = UserView;

    open spec fn view(&self) -> UserView {
        UserView {
            username: self.username@,
            password_hash: self.password_hash@,
            cpu_quota: self.cpu_quota as nat,
            memory_quota: self.memory_quota as nat,
            disk_quota: self.disk_quota as nat,
            instance_quota: self.instance_quota as nat,
            instances: instance_views(self.instances@),
        }
    }
}

impl Clone for User {
    /// A copy that shares nothing with `self` and holds the same values,
    /// the instances in the same order.
    fn clone(&self) -> (copy: Self)
        ensures
            copy@ == self@,
    {
        let mut instances: Vec<Instance> = Vec::new();
        let mut i: usize = 0;
        while i < self.instances.len()
            invariant
                i <= self.instances.len(),
                instances.len() == i,
                forall|j: int| 0 <= j < i ==> instances@[j]@ == self.instances@[j]@,
            decreases self.instances.len() - i,
        {
            instances.push(self.instances[i].clone());
            i += 1;
        }
        assert(instance_views(instances@) =~= instance_views(self.instances@));
        User {
            username: self.username.clone(),
            password_hash: self.password_hash.clone(),
            cpu_quota: self.cpu_quota,
            memory_quota: self.memory_quota,
            disk_quota: self.disk_quota,
            instance_quota: self.instance_quota,
            instances,
        }
    }
}

/// The views of a list of users, in the list's order.
pub open spec fn user_views(users: Seq<User>) -> Seq<UserView> {
    Seq::new(users.len(), |i: int| users[i]@)
}

/// Everything the service knows: the users in the order in which they were
/// added, and one secret that all of them share.
#[derive(Debug)]
pub struct State {
    pub users: Vec<User>,
    pub secret: String,
}

/// What a `State` holds, as mathematical values.
pub struct StateView {
    pub users: Seq<UserView>,
    pub secret: Seq<char>,
}

impl StateView {
    /// The state of a service that has never been used: no user, an empty secret.
    pub open spec fn empty() -> StateView {
        StateView { users: Seq::empty(), secret: Seq::empty() }
    }
}

impl View for State {
    type V = StateView;

    open spec fn view(&self) -> StateView {
        StateView { users: user_views(self.users@), secret: self.secret@ }
    }
}

impl State {
    /// A state with no user and an empty secret.
    pub fn new() -> (state: Self)
        ensures
            state@ == StateView::empty(),
    {
        let state = State { users: Vec::new(), secret: String::new() };
        assert(user_views(state.users@) =~= Seq::empty());
        state
    }
}

impl Default for State {
    /// The same as `State::new`.
    fn default() -> (state: Self)
        ensures
            state@ == StateView::empty(),
    {
        State::new()
    }
}

impl Clone for State {
    /// A copy that shares nothing with `self` and holds the same values,
    /// the users in the same order.
    fn clone(&self) -> (copy: Self)
        ensures
            copy@ == self@,
    {
        let mut users: Vec<User> = Vec::new();
        let mut i: usize = 0;
        while i < self.users.len()
            invariant
                i <= self.users.len(),
                users.len() == i,
                forall|j: int| 0 <= j < i ==> users@[j]@ == self.users@[j]@,
            decreases self.users.len() - i,
        {
            users.push(self.users[i].clone());
            i += 1;
        }
        assert(user_views(users@) =~= user_views(self.users@));
        State { users, secret: self.secret.clone() }
    }
}

} // verus!
