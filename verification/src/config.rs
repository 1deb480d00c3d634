//! Runtime configuration for the editor client.
//!
//! The configuration is assembled once at startup from environment values.
//! The environment reads themselves happen outside and hand their raw values
//! in; the defaulting and the asset-root resolution are specified here.

use crate::asset_path::{is_absolute_path, starts_absolute};
use vstd::prelude::*;
use vstd::string::StringExecFns;

verus! {

/// The character view of an optional string.
pub open spec fn opt_str_view(o: Option<String>) -> Option<Seq<char>> {
    match o {
        Some(s) => Some(s@),
        None => None,
    }
}

/// Runtime configuration for the editor client: where the database module
/// lives and where assets are loaded from.
#[derive(Clone, Debug)]
pub struct ClientRuntimeConfig {
    /// Database websocket URL, e.g. `ws://127.0.0.1:3000`.
    pub spacetime_url: String,
    /// Database module name, e.g. `my_world`.
    pub spacetime_name: String,
    /// Optional asset root override.  When set, assets are loaded relative
    /// to this directory.
    pub asset_path: Option<String>,
}

/// The resolved asset root: the override when set and non-empty, otherwise
/// `assets`; a relative root is joined under the crate directory with `/`.
/// A root counts as absolute in the same filesystem-agnostic sense the
/// validator uses: Unix root, UNC prefix, or drive letter.
pub open spec fn spec_asset_root(asset_path: Option<Seq<char>>, crate_dir: Seq<char>) -> Seq<
    char,
> {
    let raw = match asset_path {
        Some(p) => if p.len() > 0 {
            p
        } else {
            "assets"@
        },
        None => "assets"@,
    };
    if starts_absolute(raw) {
        raw
    } else {
        crate_dir + "/"@ + raw
    }
}

impl ClientRuntimeConfig {
    /// Assemble the configuration from raw environment values, applying the
    /// defaults: URL `ws://127.0.0.1:3000`, module name `default`, and no
    /// asset override when the value is unset or empty.
    pub fn from_env_values(url: Option<String>, name: Option<String>, asset_path: Option<String>) -> (c:
        ClientRuntimeConfig)
        ensures
            c.spacetime_url@ == (match url {
                Some(u) => u@,
                None => "ws://127.0.0.1:3000"@,
            }),
            c.spacetime_name@ == (match name {
                Some(m) => m@,
                None => "default"@,
            }),
            opt_str_view(c.asset_path) == (match asset_path {
                Some(p) => if p@.len() > 0 {
                    Some(p@)
                } else {
                    None::<Seq<char>>
                },
                None => None::<Seq<char>>,
            }),
    {
        let spacetime_url = match url {
            Some(u) => u,
            None => String::from_str("ws://127.0.0.1:3000"),
        };
        let spacetime_name = match name {
            Some(m) => m,
            None => String::from_str("default"),
        };
        let asset_override = match asset_path {
            Some(p) => if p.as_str().is_empty() {
                None
            } else {
                Some(p)
            },
            None => None,
        };
        ClientRuntimeConfig { spacetime_url, spacetime_name, asset_path: asset_override }
    }

    /// The asset root directory the renderer's asset server should use.
    pub fn asset_root_for_bevy(&self, crate_dir: &str) -> (r: String)
        ensures
            r@ == spec_asset_root(opt_str_view(self.asset_path), crate_dir@),
    {
        self.asset_root_resolved_or_default(crate_dir)
    }

    /// The asset root directory to use for UI listing and browsing.  Kept
    /// separate from [`Self::asset_root_for_bevy`] so the two can diverge
    /// later, though today they resolve identically.
    pub fn asset_root_for_listing(&self, crate_dir: &str) -> (r: String)
        ensures
            r@ == spec_asset_root(opt_str_view(self.asset_path), crate_dir@),
    {
        self.asset_root_resolved_or_default(crate_dir)
    }

    fn asset_root_resolved_or_default(&self, crate_dir: &str) -> (r: String)
        ensures
            r@ == spec_asset_root(opt_str_view(self.asset_path), crate_dir@),
    {
        let raw: &str = match &self.asset_path {
            Some(p) => if p.as_str().is_empty() {
                "assets"
            } else {
                p.as_str()
            },
            None => "assets",
        };
        if is_absolute_path(raw) {
            String::from_str(raw)
        } else {
            let mut out = String::from_str(crate_dir);
            out.append("/");
            out.append(raw);
            proof {
                assert(out@ =~= crate_dir@ + "/"@ + raw@);
            }
            out
        }
    }
}

} // verus!
