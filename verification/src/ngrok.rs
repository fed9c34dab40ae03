//! Picking the bot's public address out of the local tunnel list.  The
//! HTTP call that fetches the list is made outside; the choice is here.

use vstd::prelude::*;

verus! {

#[derive(Debug)]
pub enum NgrokError {
    ReqwestError(String),
    NgrokTunelNotFound,
}

/// One tunnel as the local agent reports it.
pub struct Tunnel {
    pub public_url: String,
    pub name: String,
}

/// The public address of the first tunnel named for the bot.
pub open spec fn spec_bot_tunnel(ts: Seq<Tunnel>) -> Option<Seq<char>>
    decreases ts.len(),
{
    if ts.len() == 0 {
        None
    } else if ts[0].name@ == "holland2stay-bot"@ {
        Some(ts[0].public_url@)
    } else {
        spec_bot_tunnel(ts.drop_first())
    }
}

/// The bot's public address among the reported tunnels: the first tunnel
/// named "holland2stay-bot", or the not-found error when there is none.
pub fn bot_tunnel_url(tunnels: Vec<Tunnel>) -> (r: Result<String, NgrokError>)
    ensures
        match r {
            Ok(u) => spec_bot_tunnel(tunnels@) == Some(u@),
            Err(e) => spec_bot_tunnel(tunnels@) is None && e is NgrokTunelNotFound,
        },
{
    let ghost s = tunnels@;
    proof {
        assert(s.skip(0) =~= s);
    }
    let mut j: usize = 0;
    while j < tunnels.len()
        invariant
            0 <= j <= s.len(),
            s == tunnels@,
            spec_bot_tunnel(s) == spec_bot_tunnel(s.skip(j as int)),
        decreases s.len() - j,
    {
        if tunnels[j].name == "holland2stay-bot".to_owned() {
            proof {
                assert(s.skip(j as int)[0] == s[j as int]);
            }
            return Ok(tunnels[j].public_url.clone());
        }
        proof {
            assert(s.skip(j as int)[0] == s[j as int]);
            assert(s.skip(j as int).drop_first() =~= s.skip(j as int + 1));
        }
        j = j + 1;
    }
    proof {
        assert(s.skip(s.len() as int) =~= Seq::<Tunnel>::empty());
    }
    Err(NgrokError::NgrokTunelNotFound)
}

} // verus!
