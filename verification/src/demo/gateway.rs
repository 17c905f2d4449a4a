//! Model wiring for the walkthrough: a live gateway where one is configured, otherwise a
//! script.

use vstd::prelude::*;
use vstd::string::*;

use crate::chat_completions::ChatCompletionsClient;
use crate::model::{ModelError, ModelRequest};

verus! {

/// Which model a request is going to.
#[derive(Debug, Clone, Copy, PartialEq, Eq, Structural)]
pub enum Role {
    Orchestrator,
    Worker,
    BrokerSlm,
}

/// The name of a role in the narration.
pub open spec fn role_label(role: Role) -> Seq<char> {
    match role {
        Role::Orchestrator => "orchestrator (frontier)"@,
        Role::Worker => "worker"@,
        Role::BrokerSlm => "broker SLM"@,
    }
}

impl Role {
    pub fn label(self) -> (label: &'static str)
        ensures
            label@ == role_label(self),
    {
        match self {
            Role::Orchestrator => "orchestrator (frontier)",
            Role::Worker => "worker",
            Role::BrokerSlm => "broker SLM",
        }
    }
}

/// Replays a fixed script of replies, then repeats the last one.
#[derive(Debug)]
pub struct ScriptedGateway {
    role: Role,
    /// The replies that are left, the next one last.
    replies: Vec<String>,
}

/// What is left of a script after one reply.
pub open spec fn script_after(script: Seq<Seq<char>>) -> Seq<Seq<char>> {
    if script.len() > 1 {
        script.drop_first()
    } else {
        script
    }
}

/// What is left of a script after some replies.
pub open spec fn script_after_all(script: Seq<Seq<char>>, calls: nat) -> Seq<Seq<char>>
    decreases calls,
{
    if calls == 0 {
        script
    } else {
        script_after_all(script_after(script), (calls - 1) as nat)
    }
}

/// The replies come in the order of the script, and the last one is repeated for ever.
pub proof fn a_script_is_replayed_then_repeats(script: Seq<Seq<char>>, calls: nat)
    requires
        script.len() > 0,
    ensures
        script_after_all(script, calls).len() > 0,
        script_after_all(script, calls)[0] == script[if calls < script.len() {
            calls as int
        } else {
            script.len() - 1
        }],
    decreases calls,
{
    if calls > 0 {
        a_script_is_replayed_then_repeats(script_after(script), (calls - 1) as nat);
    }
}

impl ScriptedGateway {
    /// The model that the script stands for.
    pub closed spec fn role(self) -> Role {
        self.role
    }

    /// The replies that are left, the next one first.
    pub closed spec fn script(self) -> Seq<Seq<char>> {
        crate::json::texts(self.replies@).reverse()
    }

    pub fn new(role: Role, replies: Vec<String>) -> (gateway: Self)
        ensures
            gateway.role() == role,
            gateway.script() == crate::json::texts(replies@),
    {
        let ghost given = crate::json::texts(replies@);
        let n = replies.len();
        let mut left = replies;
        let mut reversed: Vec<String> = Vec::new();
        while left.len() > 0
            invariant
                left.len() <= n,
                n == given.len(),
                crate::json::texts(left@) == given.take(left.len() as int),
                crate::json::texts(reversed@) == given.skip(left.len() as int).reverse(),
            decreases left.len(),
        {
            let ghost before = crate::json::texts(reversed@);
            let ghost k = left.len() as int;
            assert(crate::json::texts(left@)[k - 1] == left@[k - 1]@);
            let last = left.pop();
            if let Some(reply) = last {
                proof {
                    assert(reply@ == given[k - 1]);
                    assert(crate::json::texts(left@) =~= given.take(k - 1));
                }
                reversed.push(reply);
                proof {
                    assert(crate::json::texts(reversed@) =~= before.push(given[k - 1]));
                    assert(given.skip(k - 1).reverse() =~= given.skip(k).reverse().push(
                        given[k - 1],
                    ));
                }
            }
        }
        let gateway = ScriptedGateway { role, replies: reversed };
        proof {
            assert(given.skip(0) =~= given);
            assert(gateway.script() =~= given);
        }
        gateway
    }

    /// The next reply; the request does not matter.
    pub fn complete(&mut self, request: &ModelRequest) -> (result: Result<String, ModelError>)
        ensures
            final(self).role() == old(self).role(),
            final(self).script() == script_after(old(self).script()),
            if old(self).script().len() == 0 {
                result matches Err(ModelError::Other(detail)) && detail@ == role_label(
                    old(self).role(),
                ) + " script empty"@
            } else {
                result matches Ok(reply) && reply@ == old(self).script()[0]
            },
    {
        let ghost before = self.script();
        let n = self.replies.len();
        if n == 0 {
            let mut detail = self.role.label().to_owned();
            detail.append(" script empty");
            return Err(ModelError::Other(detail));
        }
        assert(before[0] == self.replies@[n - 1]@);
        let reply = self.replies[n - 1].clone();
        if n > 1 {
            self.replies.pop();
            assert(self.script() =~= before.drop_first());
        }
        Ok(reply)
    }
}

/// Live endpoint configuration, if the environment supplies one.
#[derive(Debug)]
pub struct LiveConfig {
    pub base_url: String,
    pub api_key: Option<String>,
}

impl LiveConfig {
    /// The configuration that the values of the two environment variables give: none
    /// without an address.
    pub fn from_env(base_url: Option<String>, api_key: Option<String>) -> (config: Option<Self>)
        ensures
            match base_url {
                Some(base_url) => config == Some(LiveConfig { base_url, api_key }),
                None => config is None,
            },
    {
        match base_url {
            Some(base_url) => Some(LiveConfig { base_url, api_key }),
            None => None,
        }
    }
}

/// One gateway type so the rest of the wiring is identical in both modes.
#[derive(Debug)]
pub enum DemoGateway {
    Scripted(ScriptedGateway),
    Live(ChatCompletionsClient),
}

/// The key of a configuration.
pub open spec fn key_of(key: Option<String>) -> Option<Seq<char>> {
    match key {
        Some(key) => Some(key@),
        None => None,
    }
}

/// Build a gateway for one role: live when configured, scripted otherwise.
pub fn gateway_for(role: Role, live: Option<&LiveConfig>, script: Vec<String>) -> (gateway:
    DemoGateway)
    ensures
        match live {
            Some(config) => gateway matches DemoGateway::Live(client) && client.base()
                == crate::chat_completions::without_slashes(config.base_url@) && client.key()
                == key_of(config.api_key) && client.time_limit()
                == crate::chat_completions::DEFAULT_TIMEOUT,
            None => gateway matches DemoGateway::Scripted(scripted) && scripted.role() == role
                && scripted.script() == crate::json::texts(script@),
        },
{
    match live {
        Some(config) => {
            let api_key = match &config.api_key {
                Some(key) => Some(key.clone()),
                None => None,
            };
            DemoGateway::Live(ChatCompletionsClient::new(config.base_url.as_str(), api_key))
        },
        None => DemoGateway::Scripted(ScriptedGateway::new(role, script)),
    }
}

/// Every role has its own name in the narration.
pub proof fn role_names_are_stable(role: Role)
    ensures
        role is Orchestrator ==> role_label(role) == "orchestrator (frontier)"@,
        role is Worker ==> role_label(role) == "worker"@,
        role is BrokerSlm ==> role_label(role) == "broker SLM"@,
{
}

} // verus!
