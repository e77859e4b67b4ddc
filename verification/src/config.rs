//! The baseline server configuration document.

use vstd::prelude::*;

verus! {

/// The baseline server configuration that generated configurations start
/// from: a JSON document with the network defaults and an empty `game`
/// section.
pub fn baseline_config() -> (r: &'static str)
    ensures
        r@.len() > 0,
{
    let document =
        "{\n  \"bindAddress\": \"0.0.0.0\",\n  \"bindPort\": 2001,\n  \"publicAddress\": \"\",\n  \"publicPort\": 2001,\n  \"game\": {\n    \"name\": \"\",\n    \"password\": \"\",\n    \"passwordAdmin\": \"\",\n    \"scenarioId\": \"\",\n    \"maxPlayers\": 32,\n    \"visible\": true,\n    \"crossPlatform\": true,\n    \"mods\": []\n  }\n}\n";
    proof {
        reveal_strlit(
            "{\n  \"bindAddress\": \"0.0.0.0\",\n  \"bindPort\": 2001,\n  \"publicAddress\": \"\",\n  \"publicPort\": 2001,\n  \"game\": {\n    \"name\": \"\",\n    \"password\": \"\",\n    \"passwordAdmin\": \"\",\n    \"scenarioId\": \"\",\n    \"maxPlayers\": 32,\n    \"visible\": true,\n    \"crossPlatform\": true,\n    \"mods\": []\n  }\n}\n",
        );
    }
    document
}

} // verus!
