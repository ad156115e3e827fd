//! The static files the web pages load, and the versioned URL paths they
//! are served under.

use crate::fmt::push_str;
use vstd::prelude::*;

verus! {

/// The package version, part of every static file's URL so that a new
/// build is never served stale cached files.
pub const PKG_VERSION: &'static str = "0.1.0";

/// The static files served from flash.
#[derive(Debug, Clone, Copy, PartialEq, Eq, Structural)]
pub enum Asset {
    Favicon,
    Logo,
    Css,
    BrowserHtml,
    ConfigUpdateJs,
    MemoryJs,
    MemoryCss,
    FooterHtml,
    RttHtml,
    RttJs,
    OneRomLabReadRomJs,
}

/// An asset's file name, cache suffix and extension.
pub open spec fn asset_parts(a: Asset) -> (Seq<char>, Seq<char>, Seq<char>) {
    match a {
        Asset::Favicon => ("favicon-32x32"@, "a"@, "png"@),
        Asset::Logo => ("airfrog_dark_bg_300"@, "d"@, "png"@),
        Asset::Css => ("style"@, "af"@, "css"@),
        Asset::BrowserHtml => ("browser"@, "t"@, "html"@),
        Asset::ConfigUpdateJs => ("config_update"@, "i"@, "js"@),
        Asset::MemoryJs => ("memory"@, "u"@, "js"@),
        Asset::MemoryCss => ("memory"@, "v"@, "css"@),
        Asset::FooterHtml => ("footer"@, "c"@, "html"@),
        Asset::RttHtml => ("rtt"@, "h"@, "html"@),
        Asset::RttJs => ("rtt"@, "i"@, "js"@),
        Asset::OneRomLabReadRomJs => ("oneromlab_readrom"@, "a"@, "js"@),
    }
}

/// An asset's URL path: `/static/{name}.{version}-{suffix}.{ext}`.
pub open spec fn asset_path(a: Asset) -> Seq<char> {
    let (name, suffix, ext) = asset_parts(a);
    "/static/"@ + name + "."@ + PKG_VERSION@ + "-"@ + suffix + "."@ + ext
}

impl Asset {
    /// The asset's file name, cache suffix and extension.
    pub fn parts(&self) -> (r: (&'static str, &'static str, &'static str))
        ensures
            (r.0@, r.1@, r.2@) == asset_parts(*self),
    {
        match self {
            Asset::Favicon => ("favicon-32x32", "a", "png"),
            Asset::Logo => ("airfrog_dark_bg_300", "d", "png"),
            Asset::Css => ("style", "af", "css"),
            Asset::BrowserHtml => ("browser", "t", "html"),
            Asset::ConfigUpdateJs => ("config_update", "i", "js"),
            Asset::MemoryJs => ("memory", "u", "js"),
            Asset::MemoryCss => ("memory", "v", "css"),
            Asset::FooterHtml => ("footer", "c", "html"),
            Asset::RttHtml => ("rtt", "h", "html"),
            Asset::RttJs => ("rtt", "i", "js"),
            Asset::OneRomLabReadRomJs => ("oneromlab_readrom", "a", "js"),
        }
    }

    /// Appends the asset's URL path (see [`asset_path`]) to `s`.
    pub fn append_path(&self, s: &mut String)
        ensures
            final(s)@ == old(s)@ + asset_path(*self),
    {
        let (name, suffix, ext) = self.parts();
        push_str(s, "/static/");
        push_str(s, name);
        push_str(s, ".");
        push_str(s, PKG_VERSION);
        push_str(s, "-");
        push_str(s, suffix);
        push_str(s, ".");
        push_str(s, ext);
    }

    /// The asset's URL path (see [`asset_path`]).
    pub fn path(&self) -> (r: String)
        ensures
            r@ == asset_path(*self),
    {
        let mut s = String::new();
        self.append_path(&mut s);
        s
    }
}

/// The static files in the order the server looks them up.
pub open spec fn static_assets() -> Seq<Asset> {
    seq![
        Asset::Logo,
        Asset::Favicon,
        Asset::Css,
        Asset::BrowserHtml,
        Asset::ConfigUpdateJs,
        Asset::MemoryJs,
        Asset::MemoryCss,
        Asset::FooterHtml,
        Asset::RttHtml,
        Asset::RttJs,
    ]
}

/// The static files in the order the server looks them up.
pub fn static_asset_list() -> (r: Vec<Asset>)
    ensures
        r@ == static_assets(),
{
    let v = vec![
        Asset::Logo,
        Asset::Favicon,
        Asset::Css,
        Asset::BrowserHtml,
        Asset::ConfigUpdateJs,
        Asset::MemoryJs,
        Asset::MemoryCss,
        Asset::FooterHtml,
        Asset::RttHtml,
        Asset::RttJs,
    ];
    assert(v@ =~= static_assets());
    v
}

} // verus!
