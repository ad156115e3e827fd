//! The HTML pages the web server returns.

use crate::fmt::{append_dec, chars_of, dec, has_prefix_at, prefix_at, push_str, string_from, string_of};
use crate::swd::Speed;
use crate::http::assets::{asset_path, Asset};
use vstd::prelude::*;

verus! {

/// An HTML document.
pub struct HtmlContent(pub String);

/// The document head, linking the favicon and style sheet.
pub open spec fn head() -> Seq<char> {
    "<!DOCTYPE html><html><head><meta charset='utf-8'><meta name='viewport' content='width=device-width,initial-scale=1'><link rel='icon' type='image/png' sizes='32x32' href='"@
        + asset_path(Asset::Favicon) + "'><link rel='stylesheet' href='"@ + asset_path(Asset::Css)
        + "'><title>airfrog</title></head>"@
}

/// The logo image.
pub open spec fn logo() -> Seq<char> {
    "<img src='"@ + asset_path(Asset::Logo) + "' alt='logo' class='logo'>"@
}

/// The footer placeholder and the script that loads the footer into it.
pub open spec fn footer() -> Seq<char> {
    "<div id=\"ft-phdr\"></div><script>fetch('"@ + asset_path(Asset::FooterHtml)
        + "').then(r => r.text()).then(html => document.getElementById('ft-phdr').innerHTML = html);</script>"@
}

/// A whole page around `body`: head, logo, content and footer.
pub open spec fn page(body: Seq<char>) -> Seq<char> {
    head() + "<body>"@ + logo() + "<div class=\"content\">"@ + body + "</div>"@ + footer()
        + "</body>"@
}

impl HtmlContent {
    fn header() -> (r: String)
        ensures
            r@ == head(),
    {
        let mut s = String::new();
        push_str(
            &mut s,
            "<!DOCTYPE html><html><head><meta charset='utf-8'><meta name='viewport' content='width=device-width,initial-scale=1'><link rel='icon' type='image/png' sizes='32x32' href='",
        );
        Asset::Favicon.append_path(&mut s);
        push_str(&mut s, "'><link rel='stylesheet' href='");
        Asset::Css.append_path(&mut s);
        push_str(&mut s, "'><title>airfrog</title></head>");
        s
    }

    fn logo() -> (r: String)
        ensures
            r@ == logo(),
    {
        let mut s = String::new();
        push_str(&mut s, "<img src='");
        Asset::Logo.append_path(&mut s);
        push_str(&mut s, "' alt='logo' class='logo'>");
        s
    }

    fn footer() -> (r: String)
        ensures
            r@ == footer(),
    {
        let mut s = String::new();
        push_str(&mut s, "<div id=\"ft-phdr\"></div><script>fetch('");
        Asset::FooterHtml.append_path(&mut s);
        push_str(
            &mut s,
            "').then(r => r.text()).then(html => document.getElementById('ft-phdr').innerHTML = html);</script>",
        );
        s
    }

    fn body(body: &str) -> (r: String)
        ensures
            r@ == "<body>"@ + logo() + "<div class=\"content\">"@ + body@ + "</div>"@ + footer()
                + "</body>"@,
    {
        let logo = Self::logo();
        let footer = Self::footer();
        let mut s = String::new();
        push_str(&mut s, "<body>");
        push_str(&mut s, logo.as_str());
        push_str(&mut s, "<div class=\"content\">");
        push_str(&mut s, body);
        push_str(&mut s, "</div>");
        push_str(&mut s, footer.as_str());
        push_str(&mut s, "</body>");
        s
    }

    /// The whole page around `body` (see [`page`]).
    pub fn new(body: String) -> (r: Self)
        ensures
            r.0@ == page(body@),
    {
        let mut s = Self::header();
        let b = Self::body(body.as_str());
        push_str(&mut s, b.as_str());
        HtmlContent(s)
    }
}

/// The body of the page shown when a request times out.
pub open spec fn timeout_body() -> Seq<char> {
    "\n<h1>Airfrog Timeout</h1>\n<div class=\"card\">\n  <p>Airfrog is very busy right now and can't respond to you.</p> \n  <p>The binary API may be active - are you using it?</p>\n  <p>Or maybe you just need to back off for a while.</p>\n  <br/>\n  <p>See you later!</p>\n</div>"@
}

/// The body of the page shown for an unknown path.
pub open spec fn not_found_body() -> Seq<char> {
    "\n<h1>Airfrog Is Lost</h1>\n<div class=\"card\">\n  <p>Airfrog can't find the page you requested.</p>\n  <p>It may have been moved or deleted.</p>\n  <p>Or maybe you imagined it?</p>\n  <br/>\n  <p>See you later!</p>\n</div>"@
}

/// The body of the page shown for a request that cannot be understood.
pub open spec fn bad_request_body() -> Seq<char> {
    "\n<h1>Airfrog Is Confused</h1>\n<div class=\"card\">\n  <p>Airfrog can't understand your request.</p>\n  <p>Maybe you sent it something it didn't expect?</p>\n  <p>Or encoded it incorrectly.</p>\n  <br/>\n  <p>See you later!</p>\n</div>"@
}

/// The page shown when a request times out.
pub fn html_timeout() -> (r: HtmlContent)
    ensures
        r.0@ == page(timeout_body()),
{
    HtmlContent::new(
        string_of(
            "\n<h1>Airfrog Timeout</h1>\n<div class=\"card\">\n  <p>Airfrog is very busy right now and can't respond to you.</p> \n  <p>The binary API may be active - are you using it?</p>\n  <p>Or maybe you just need to back off for a while.</p>\n  <br/>\n  <p>See you later!</p>\n</div>",
        ),
    )
}

/// The page shown for an unknown path.
pub fn html_not_found() -> (r: HtmlContent)
    ensures
        r.0@ == page(not_found_body()),
{
    HtmlContent::new(
        string_of(
            "\n<h1>Airfrog Is Lost</h1>\n<div class=\"card\">\n  <p>Airfrog can't find the page you requested.</p>\n  <p>It may have been moved or deleted.</p>\n  <p>Or maybe you imagined it?</p>\n  <br/>\n  <p>See you later!</p>\n</div>",
        ),
    )
}

/// The page shown for a request that cannot be understood.
pub fn html_bad_request() -> (r: HtmlContent)
    ensures
        r.0@ == page(bad_request_body()),
{
    HtmlContent::new(
        string_of(
            "\n<h1>Airfrog Is Confused</h1>\n<div class=\"card\">\n  <p>Airfrog can't understand your request.</p>\n  <p>Maybe you sent it something it didn't expect?</p>\n  <p>Or encoded it incorrectly.</p>\n  <br/>\n  <p>See you later!</p>\n</div>",
        ),
    )
}


/// airfrog's home page.
pub const AIRFROG_HOME_PAGE: &'static str = "piers.rocks/u/airfrog";

/// airfrog's author.
pub const AUTHOR: &'static str = "Piers Finlayson";

/// The author's e-mail address.
pub const AUTHOR_EMAIL: &'static str = "piers@piers.rocks";

/// A Rust version string without its `rustc ` prefix, where it has one.
pub open spec fn strip_rustc(v: Seq<char>) -> Seq<char> {
    if has_prefix_at(v, 0, "rustc "@) {
        v.skip("rustc "@.len() as int)
    } else {
        v
    }
}

fn without_rustc_prefix(v: &str) -> (r: String)
    ensures
        r@ == strip_rustc(v@),
{
    let cs = chars_of(v);
    assert(cs@.skip(0) =~= cs@);
    if prefix_at(&cs, 0, "rustc ") {
        let n = chars_of("rustc ").len();
        string_from(&cs, n)
    } else {
        string_from(&cs, 0)
    }
}

/// SWD settings shown in a settings form.
#[derive(Debug, Clone, Copy, PartialEq, Eq, Structural)]
pub struct SwdSettings {
    pub speed: Speed,
    pub auto_connect: bool,
    pub keepalive: bool,
    pub refresh: bool,
}

/// Network modes.
#[derive(Debug, Clone, Copy, PartialEq, Eq, Structural)]
pub enum NetMode {
    StaFallbackToAp,
    ApOnly,
}

/// Stored network settings shown in the network form.
pub struct NetSettings {
    pub mode: NetMode,
    pub sta_ssid: String,
    pub sta_password: String,
    pub sta_dhcp: bool,
    pub sta_ip: [u8; 4],
    pub sta_netmask: [u8; 4],
    pub sta_gw: [u8; 4],
    pub sta_dns0: [u8; 4],
    pub sta_dns1: [u8; 4],
    pub sta_ntp: [u8; 4],
    pub ap_ssid: String,
    pub ap_password: String,
    pub ap_ip: [u8; 4],
    pub ap_netmask: [u8; 4],
}

/// An IPv4 address in dotted decimal, or nothing where it is unset (all
/// ones).
pub open spec fn ip_text(ip: [u8; 4]) -> Seq<char> {
    if ip[0] == 255 && ip[1] == 255 && ip[2] == 255 && ip[3] == 255 {
        Seq::empty()
    } else {
        dec(ip[0] as nat) + "."@ + dec(ip[1] as nat) + "."@ + dec(ip[2] as nat) + "."@ + dec(
            ip[3] as nat,
        )
    }
}

fn append_ip(s: &mut String, ip: [u8; 4])
    ensures
        final(s)@ == old(s)@ + ip_text(ip),
{
    if ip[0] == 255 && ip[1] == 255 && ip[2] == 255 && ip[3] == 255 {
        assert(old(s)@ + ip_text(ip) =~= old(s)@);
        return;
    }
    append_dec(s, ip[0] as u64);
    push_str(s, ".");
    append_dec(s, ip[1] as u64);
    push_str(s, ".");
    append_dec(s, ip[2] as u64);
    push_str(s, ".");
    append_dec(s, ip[3] as u64);
    assert(final(s)@ =~= old(s)@ + ip_text(ip));
}

/// The dashboard: the target summary.
pub open spec fn page_dashboard_text(summary: Seq<char>) -> Seq<char> {
    "\n<h1>Airfrog Dashboard</h1>\n"@
        + summary
        + "\n"@
}

/// The dashboard: the target summary.
pub fn page_dashboard(summary: String) -> (r: HtmlContent)
    ensures
        r.0@ == page(page_dashboard_text(summary@)),
{
    let mut s = string_of("\n<h1>Airfrog Dashboard</h1>\n");
    push_str(&mut s, summary.as_str());
    push_str(&mut s, "\n");
    HtmlContent::new(s)
}

/// The target memory browser page, which loads the browser from its static file.
pub open spec fn page_target_browser_text(summary: Seq<char>) -> Seq<char> {
    "\n<h1>Target Memory Access</h1>\n"@
        + summary
        + "\n<link rel=\"stylesheet\" href=\""@
        + asset_path(Asset::MemoryCss)
        + "\">\n<div id=\"loading-card\" class=\"card\">\n  Loading MCU Browser...\n</div>\n<div id=\"content-placeholder\" style=\"display: none;\"></div>\n<script>\nfetch('"@
        + asset_path(Asset::BrowserHtml)
        + "')\n  .then(r => r.text())\n  .then(html => {\n    document.getElementById('content-placeholder').innerHTML = html;\n    document.getElementById('loading-card').style.display = 'none';\n    document.getElementById('content-placeholder').style.display = 'block';\n  });\n</script>\n<script src=\""@
        + asset_path(Asset::MemoryJs)
        + "\"></script>"@
}

/// The target memory browser page, which loads the browser from its static file.
pub fn page_target_browser(summary: String) -> (r: HtmlContent)
    ensures
        r.0@ == page(page_target_browser_text(summary@)),
{
    let mut s = string_of("\n<h1>Target Memory Access</h1>\n");
    push_str(&mut s, summary.as_str());
    push_str(&mut s, "\n<link rel=\"stylesheet\" href=\"");
    Asset::MemoryCss.append_path(&mut s);
    push_str(&mut s, "\">\n<div id=\"loading-card\" class=\"card\">\n  Loading MCU Browser...\n</div>\n<div id=\"content-placeholder\" style=\"display: none;\"></div>\n<script>\nfetch('");
    Asset::BrowserHtml.append_path(&mut s);
    push_str(&mut s, "')\n  .then(r => r.text())\n  .then(html => {\n    document.getElementById('content-placeholder').innerHTML = html;\n    document.getElementById('loading-card').style.display = 'none';\n    document.getElementById('content-placeholder').style.display = 'block';\n  });\n</script>\n<script src=\"");
    Asset::MemoryJs.append_path(&mut s);
    push_str(&mut s, "\"></script>");
    HtmlContent::new(s)
}

/// The flash operations page.
pub open spec fn page_target_update_text(summary: Seq<char>) -> Seq<char> {
    "\n<h1>Target Flash Operations</h1>\n"@
        + summary
        + "\n<link rel=\"stylesheet\" href=\""@
        + asset_path(Asset::MemoryCss)
        + "\">\n<div class=\"card\">\n  <p><strong>⚠️ Warning: These operations can brick the target, requiring reflashing.</strong></p>\n  <br/>\n  <div style=\"display: flex; justify-content: space-between; align-items: flex-start; margin: 1rem 0;\">\n    <table class=\"device-info\" style=\"margin: 0;\">\n      <tr>\n        <td class=\"label-col\" style=\"width: 300px;\"><strong>Erase before update:</strong></td>\n        <td><input type=\"checkbox\" id=\"eraseBeforeUpdate\" title=\"Erase the flash memory before updating\" checked></td>\n      </tr>\n      <tr>\n        <td class=\"label-col\" style=\"width: 300px;\"><strong>Halt before operation:</strong></td>\n        <td><input type=\"checkbox\" id=\"resetBefore\" title=\"Halt the target before performing the erase or flash update\" checked></td>\n      </tr>\n      <tr>\n        <td class=\"label-col\" style=\"width: 300px;\"><strong>Reset after operation:</strong></td>\n        <td><input type=\"checkbox\" id=\"resetAfter\" title=\"Reset the target after performing the erase or flash update\" checked></td>\n      </tr>\n      <tr>\n        <td class=\"label-col\" style=\"width: 300px;\"><strong>Verify after update:</strong></td>\n        <td><input type=\"checkbox\" id=\"verifyAfterUpdate\" title=\"Verify the flash after updating\" checked></td>\n      </tr>\n    </table>\n  <div style=\"display: flex; flex-direction: column; gap: 5px; min-width: 150px;\">\n    <button title=\"Halt the target MCU immediately\" id=\"haltButton\">Halt Target</button>\n    <button title=\"Reset and restart the target MCU immediately\" id=\"resetButton\">Reset Target</button>\n    <button title=\"Erase the target's flash\" id=\"eraseButton\">Erase Flash</button>\n  </div>\n</div>\n  <div class=\"upload-section\">\n    <input type=\"file\" id=\"firmwareFile\" accept=\".bin,.hex,.elf\" style=\"display: none;\" />\n    <button type=\"button\" id=\"chooseFileBtn\">Choose File</button>\n    <strong id=\"fileStatus\">No file chosen</strong>\n    <button id=\"updateButton\" title=\"Update the target's flash with the selected firmware file\" disabled style=\"float: right\">Update Firmware</button>\n  </div>\n  <div class=\"progress-section\" style=\"display: none;\">\n    <div class=\"progress-bar\">\n      <div class=\"progress-fill\"></div>\n    </div>\n    <div class=\"progress-text\">0%</div>\n  </div>\n  <div id=\"statusMessage\" class=\"status-message\"></div>\n</div>\n<script src=\""@
        + asset_path(Asset::MemoryJs)
        + "\"></script>"@
}

/// The flash operations page.
pub fn page_target_update(summary: String) -> (r: HtmlContent)
    ensures
        r.0@ == page(page_target_update_text(summary@)),
{
    let mut s = string_of("\n<h1>Target Flash Operations</h1>\n");
    push_str(&mut s, summary.as_str());
    push_str(&mut s, "\n<link rel=\"stylesheet\" href=\"");
    Asset::MemoryCss.append_path(&mut s);
    push_str(&mut s, "\">\n<div class=\"card\">\n  <p><strong>⚠️ Warning: These operations can brick the target, requiring reflashing.</strong></p>\n  <br/>\n  <div style=\"display: flex; justify-content: space-between; align-items: flex-start; margin: 1rem 0;\">\n    <table class=\"device-info\" style=\"margin: 0;\">\n      <tr>\n        <td class=\"label-col\" style=\"width: 300px;\"><strong>Erase before update:</strong></td>\n        <td><input type=\"checkbox\" id=\"eraseBeforeUpdate\" title=\"Erase the flash memory before updating\" checked></td>\n      </tr>\n      <tr>\n        <td class=\"label-col\" style=\"width: 300px;\"><strong>Halt before operation:</strong></td>\n        <td><input type=\"checkbox\" id=\"resetBefore\" title=\"Halt the target before performing the erase or flash update\" checked></td>\n      </tr>\n      <tr>\n        <td class=\"label-col\" style=\"width: 300px;\"><strong>Reset after operation:</strong></td>\n        <td><input type=\"checkbox\" id=\"resetAfter\" title=\"Reset the target after performing the erase or flash update\" checked></td>\n      </tr>\n      <tr>\n        <td class=\"label-col\" style=\"width: 300px;\"><strong>Verify after update:</strong></td>\n        <td><input type=\"checkbox\" id=\"verifyAfterUpdate\" title=\"Verify the flash after updating\" checked></td>\n      </tr>\n    </table>\n  <div style=\"display: flex; flex-direction: column; gap: 5px; min-width: 150px;\">\n    <button title=\"Halt the target MCU immediately\" id=\"haltButton\">Halt Target</button>\n    <button title=\"Reset and restart the target MCU immediately\" id=\"resetButton\">Reset Target</button>\n    <button title=\"Erase the target's flash\" id=\"eraseButton\">Erase Flash</button>\n  </div>\n</div>\n  <div class=\"upload-section\">\n    <input type=\"file\" id=\"firmwareFile\" accept=\".bin,.hex,.elf\" style=\"display: none;\" />\n    <button type=\"button\" id=\"chooseFileBtn\">Choose File</button>\n    <strong id=\"fileStatus\">No file chosen</strong>\n    <button id=\"updateButton\" title=\"Update the target's flash with the selected firmware file\" disabled style=\"float: right\">Update Firmware</button>\n  </div>\n  <div class=\"progress-section\" style=\"display: none;\">\n    <div class=\"progress-bar\">\n      <div class=\"progress-fill\"></div>\n    </div>\n    <div class=\"progress-text\">0%</div>\n  </div>\n  <div id=\"statusMessage\" class=\"status-message\"></div>\n</div>\n<script src=\"");
    Asset::MemoryJs.append_path(&mut s);
    push_str(&mut s, "\"></script>");
    HtmlContent::new(s)
}

/// The firmware information page around its firmware card.
pub open spec fn page_target_firmware_body_text(fw_info_html: Seq<char>) -> Seq<char> {
    "\n<h1>Target Firmware Information</h1>\n"@
        + fw_info_html
}

/// The firmware information page around its firmware card.
pub fn page_target_firmware_body(fw_info_html: &str) -> (r: String)
    ensures
        r@ == page_target_firmware_body_text(fw_info_html@),
{
    let mut s = string_of("\n<h1>Target Firmware Information</h1>\n");
    push_str(&mut s, fw_info_html);
    s
}

/// The system card: MCU, flash size in KiB, clock speed, MAC address, last reset reason, uptime split into days, hours, minutes and seconds, and heap use.
pub open spec fn html_system_info_text(mcu: Seq<char>, flash_size_bytes: nat, clock_speed: nat, mac_address: Seq<char>, rr_str: Seq<char>, uptime_secs: nat, heap_used: nat, heap_size: nat) -> Seq<char> {
    "\n<div class=\"card\">\n<h2>System</h2>\n  <table class=\"device-info\">\n    <tr><td class=\"label-col\" style=\"width: 300px;\"><strong>MCU:</strong></td><td>"@
        + mcu
        + "</td></tr>\n    <tr><td class=\"label-col\" style=\"width: 300px;\"><strong>Flash size:</strong></td><td>"@
        + dec(flash_size_bytes / 1024)
        + " KB</td></tr>\n    <tr><td class=\"label-col\" style=\"width: 300px;\"><strong>Clock Speed:</strong></td><td>"@
        + dec(clock_speed)
        + " MHz</td></tr>\n    <tr><td class=\"label-col\" style=\"width: 300px;\"><strong>MAC Address:</strong></td><td>"@
        + mac_address
        + "</td></tr>\n    <tr><td class=\"label-col\" style=\"width: 300px;\"><strong>Last Reset Reason:</strong></td><td>"@
        + rr_str
        + "</td></tr>\n    <tr><td class=\"label-col\" style=\"width: 300px;\"><strong>Uptime:</strong></td><td>"@
        + dec(uptime_secs / 86400)
        + "d "@
        + dec((uptime_secs % 86400) / 3600)
        + "h "@
        + dec((uptime_secs % 3600) / 60)
        + "m "@
        + dec(uptime_secs % 60)
        + "s</td></tr>\n    <tr><td class=\"label-col\" style=\"width: 300px;\"><strong>Heap:</strong></td><td>"@
        + dec(heap_used)
        + "/"@
        + dec(heap_size)
        + " bytes ("@
        + dec((heap_used * 100) / heap_size)
        + "% used)</td></tr>\n  </table>\n</div>"@
}

/// The system card: MCU, flash size in KiB, clock speed, MAC address, last reset reason, uptime split into days, hours, minutes and seconds, and heap use.
pub fn html_system_info(mcu: &str, flash_size_bytes: usize, clock_speed: u32, mac_address: &str, rr_str: &str, uptime_secs: u64, heap_used: usize, heap_size: usize) -> (r: String)
    requires
        heap_size > 0,
        heap_used * 100 <= usize::MAX,
    ensures
        r@ == html_system_info_text(mcu@, flash_size_bytes as nat, clock_speed as nat, mac_address@, rr_str@, uptime_secs as nat, heap_used as nat, heap_size as nat),
{
    let mut s = string_of("\n<div class=\"card\">\n<h2>System</h2>\n  <table class=\"device-info\">\n    <tr><td class=\"label-col\" style=\"width: 300px;\"><strong>MCU:</strong></td><td>");
    push_str(&mut s, mcu);
    push_str(&mut s, "</td></tr>\n    <tr><td class=\"label-col\" style=\"width: 300px;\"><strong>Flash size:</strong></td><td>");
    append_dec(&mut s, (flash_size_bytes / 1024) as u64);
    push_str(&mut s, " KB</td></tr>\n    <tr><td class=\"label-col\" style=\"width: 300px;\"><strong>Clock Speed:</strong></td><td>");
    append_dec(&mut s, clock_speed as u64);
    push_str(&mut s, " MHz</td></tr>\n    <tr><td class=\"label-col\" style=\"width: 300px;\"><strong>MAC Address:</strong></td><td>");
    push_str(&mut s, mac_address);
    push_str(&mut s, "</td></tr>\n    <tr><td class=\"label-col\" style=\"width: 300px;\"><strong>Last Reset Reason:</strong></td><td>");
    push_str(&mut s, rr_str);
    push_str(&mut s, "</td></tr>\n    <tr><td class=\"label-col\" style=\"width: 300px;\"><strong>Uptime:</strong></td><td>");
    append_dec(&mut s, uptime_secs / 86400);
    push_str(&mut s, "d ");
    append_dec(&mut s, (uptime_secs % 86400) / 3600);
    push_str(&mut s, "h ");
    append_dec(&mut s, (uptime_secs % 3600) / 60);
    push_str(&mut s, "m ");
    append_dec(&mut s, uptime_secs % 60);
    push_str(&mut s, "s</td></tr>\n    <tr><td class=\"label-col\" style=\"width: 300px;\"><strong>Heap:</strong></td><td>");
    append_dec(&mut s, heap_used as u64);
    push_str(&mut s, "/");
    append_dec(&mut s, heap_size as u64);
    push_str(&mut s, " bytes (");
    append_dec(&mut s, ((heap_used * 100) / heap_size) as u64);
    push_str(&mut s, "% used)</td></tr>\n  </table>\n</div>");
    s
}

/// The build card: version, build time and date, features, profile and Rust version (without its `rustc ` prefix).
pub open spec fn html_build_info_text(version: Seq<char>, build_time: Seq<char>, build_date: Seq<char>, features: Seq<char>, profile: Seq<char>, rust: Seq<char>) -> Seq<char> {
    "\n<div class=\"card\">\n  <h2>Build</h2>\n  <table class=\"device-info\">\n    <tr><td class=\"label-col\" style=\"width: 300px;\"><strong>Airfrog Version:</strong></td><td>v"@
        + version
        + "</td></tr>\n    <tr><td class=\"label-col\" style=\"width: 300px;\"><strong>Build Time and Date:</strong></td><td>"@
        + build_time
        + " "@
        + build_date
        + "</td></tr>\n    <tr><td class=\"label-col\" style=\"width: 300px;\"><strong>Build Features:</strong></td><td>"@
        + features
        + "</td></tr>\n    <tr><td class=\"label-col\" style=\"width: 300px;\"><strong>Build Profile:</strong></td><td>"@
        + profile
        + "</td></tr>\n    <tr><td class=\"label-col\" style=\"width: 300px;\"><strong>Rust Version:</strong></td><td>"@
        + rust
        + "</td></tr>\n  </table>\n</div>"@
}

/// The build card: version, build time and date, features, profile and Rust version (without its `rustc ` prefix).
pub fn html_build_info(version: &str, build_time: &str, build_date: &str, features: &str, profile: &str, rustc_version: &str) -> (r: String)
    ensures
        r@ == html_build_info_text(version@, build_time@, build_date@, features@, profile@, strip_rustc(rustc_version@)),
{
    let rust = without_rustc_prefix(rustc_version);
    let mut s = string_of("\n<div class=\"card\">\n  <h2>Build</h2>\n  <table class=\"device-info\">\n    <tr><td class=\"label-col\" style=\"width: 300px;\"><strong>Airfrog Version:</strong></td><td>v");
    push_str(&mut s, version);
    push_str(&mut s, "</td></tr>\n    <tr><td class=\"label-col\" style=\"width: 300px;\"><strong>Build Time and Date:</strong></td><td>");
    push_str(&mut s, build_time);
    push_str(&mut s, " ");
    push_str(&mut s, build_date);
    push_str(&mut s, "</td></tr>\n    <tr><td class=\"label-col\" style=\"width: 300px;\"><strong>Build Features:</strong></td><td>");
    push_str(&mut s, features);
    push_str(&mut s, "</td></tr>\n    <tr><td class=\"label-col\" style=\"width: 300px;\"><strong>Build Profile:</strong></td><td>");
    push_str(&mut s, profile);
    push_str(&mut s, "</td></tr>\n    <tr><td class=\"label-col\" style=\"width: 300px;\"><strong>Rust Version:</strong></td><td>");
    push_str(&mut s, rust.as_str());
    push_str(&mut s, "</td></tr>\n  </table>\n</div>");
    s
}

/// The project card: home page, author and licence.
pub open spec fn html_project_info_text(license: Seq<char>) -> Seq<char> {
    "\n<div class=\"card\">\n  <h2>Project</h2>\n  <table class=\"device-info\">\n    <tr><td class=\"label-col\" style=\"width: 300px;\"><strong>Homepage:</strong></td><td><a href=\"https://"@
        + AIRFROG_HOME_PAGE@
        + "\">"@
        + AIRFROG_HOME_PAGE@
        + "</a></td></tr>\n    <tr><td class=\"label-col\" style=\"width: 300px;\"><strong>Author:</strong></td><td><a href=\"mailto:"@
        + AUTHOR_EMAIL@
        + "?subject=Airfrog\">"@
        + AUTHOR@
        + "</a></td></tr>\n    <tr><td class=\"label-col\" style=\"width: 300px;\"><strong>Licence:</strong></td><td>"@
        + license
        + "</td></tr>\n  </table>\n</div>"@
}

/// The project card: home page, author and licence.
pub fn html_project_info(license: &str) -> (r: String)
    ensures
        r@ == html_project_info_text(license@),
{
    let mut s = string_of("\n<div class=\"card\">\n  <h2>Project</h2>\n  <table class=\"device-info\">\n    <tr><td class=\"label-col\" style=\"width: 300px;\"><strong>Homepage:</strong></td><td><a href=\"https://");
    push_str(&mut s, AIRFROG_HOME_PAGE);
    push_str(&mut s, "\">");
    push_str(&mut s, AIRFROG_HOME_PAGE);
    push_str(&mut s, "</a></td></tr>\n    <tr><td class=\"label-col\" style=\"width: 300px;\"><strong>Author:</strong></td><td><a href=\"mailto:");
    push_str(&mut s, AUTHOR_EMAIL);
    push_str(&mut s, "?subject=Airfrog\">");
    push_str(&mut s, AUTHOR);
    push_str(&mut s, "</a></td></tr>\n    <tr><td class=\"label-col\" style=\"width: 300px;\"><strong>Licence:</strong></td><td>");
    push_str(&mut s, license);
    push_str(&mut s, "</td></tr>\n  </table>\n</div>");
    s
}

/// The information page around its system, build and project cards.
pub open spec fn page_info_body_text(system: Seq<char>, build: Seq<char>, project: Seq<char>) -> Seq<char> {
    "\n<h1>Airfrog Information</h1>\n"@
        + system
        + "\n"@
        + build
        + "\n"@
        + project
        + "\n"@
}

/// The information page around its system, build and project cards.
pub fn page_info_body(system: &str, build: &str, project: &str) -> (r: String)
    ensures
        r@ == page_info_body_text(system@, build@, project@),
{
    let mut s = string_of("\n<h1>Airfrog Information</h1>\n");
    push_str(&mut s, system);
    push_str(&mut s, "\n");
    push_str(&mut s, build);
    push_str(&mut s, "\n");
    push_str(&mut s, project);
    push_str(&mut s, "\n");
    s
}

/// An SWD settings form: speed choice, auto connect, keepalive and refresh boxes, with element ids prefixed by `prefix`.
pub open spec fn settings_swd_text(prefix: Seq<char>, source: Seq<char>, speed: Speed, auto_connect: bool, keepalive: bool, refresh: bool) -> Seq<char> {
    "\n  <table class=\"device-info\">\n    <tr>\n      <td class=\"label-col\"><strong>SWD speed:</strong></td>\n      <td>\n        <select id=\""@
        + prefix
        + "Sp\" title=\"Controls how fast Airfrog communicates with the target - use slower speeds where wiring is long or unreliable\">\n          <option value=\"Slow\" "@
        + (if speed == Speed::Slow { "selected"@ } else { ""@ })
        + ">Slow (500kHz)</option>\n          <option value=\"Medium\" "@
        + (if speed == Speed::Medium { "selected"@ } else { ""@ })
        + ">Medium (1MHz)</option>\n          <option value=\"Fast\" "@
        + (if speed == Speed::Fast { "selected"@ } else { ""@ })
        + ">Fast (2MHz)</option>\n          <option value=\"Turbo\" "@
        + (if speed == Speed::Turbo { "selected"@ } else { ""@ })
        + ">Turbo (4MHz)</option>\n        </select>\n      </td>\n    </tr>\n    <tr>\n      <td class=\"label-col\" style=\"width: 300px;\"><strong>Auto connect to target:</strong></td>\n      <td><input type=\"checkbox\" id=\""@
        + prefix
        + "Ac\" title=\"Periodically attempts to reconnects to the target when disconnected\" "@
        + (if auto_connect { "checked"@ } else { ""@ })
        + "></td>\n    </tr>\n    <tr>\n      <td class=\"label-col\" style=\"width: 300px;\"><strong>Target keepalive:</strong></td>\n      <td><input type=\"checkbox\" id=\""@
        + prefix
        + "Ka\" title=\"Periodically polls the target when connected\" "@
        + (if keepalive { "checked"@ } else { ""@ })
        + "></td>\n    </tr>\n    <tr>\n      <td class=\"label-col\" style=\"width: 300px;\"><strong>Firmware refresh:</strong></td>\n      <td><input type=\"checkbox\" id=\""@
        + prefix
        + "Rst\" title=\"Periodically re-analyses the target firmware when connected\" "@
        + (if refresh { "checked"@ } else { ""@ })
        + "></td>\n    </tr>\n  </table>\n  <div style=\"text-align: center; margin-top: 1rem;\">\n    <button id=\""@
        + prefix
        + "Up\">Update "@
        + source
        + " Settings</button>\n  </div>\n  <div id=\""@
        + prefix
        + "Stat\" class=\"status-message\"></div>\n"@
}

/// An SWD settings form: speed choice, auto connect, keepalive and refresh boxes, with element ids prefixed by `prefix`.
pub fn settings_swd(prefix: &str, source: &str, settings: &SwdSettings) -> (r: String)
    ensures
        r@ == settings_swd_text(prefix@, source@, settings.speed, settings.auto_connect, settings.keepalive, settings.refresh),
{
    let speed = settings.speed;
    let auto_connect = settings.auto_connect;
    let keepalive = settings.keepalive;
    let refresh = settings.refresh;
    let mut s = string_of("\n  <table class=\"device-info\">\n    <tr>\n      <td class=\"label-col\"><strong>SWD speed:</strong></td>\n      <td>\n        <select id=\"");
    push_str(&mut s, prefix);
    push_str(&mut s, "Sp\" title=\"Controls how fast Airfrog communicates with the target - use slower speeds where wiring is long or unreliable\">\n          <option value=\"Slow\" ");
    push_str(&mut s, if speed == Speed::Slow { "selected" } else { "" });
    push_str(&mut s, ">Slow (500kHz)</option>\n          <option value=\"Medium\" ");
    push_str(&mut s, if speed == Speed::Medium { "selected" } else { "" });
    push_str(&mut s, ">Medium (1MHz)</option>\n          <option value=\"Fast\" ");
    push_str(&mut s, if speed == Speed::Fast { "selected" } else { "" });
    push_str(&mut s, ">Fast (2MHz)</option>\n          <option value=\"Turbo\" ");
    push_str(&mut s, if speed == Speed::Turbo { "selected" } else { "" });
    push_str(&mut s, ">Turbo (4MHz)</option>\n        </select>\n      </td>\n    </tr>\n    <tr>\n      <td class=\"label-col\" style=\"width: 300px;\"><strong>Auto connect to target:</strong></td>\n      <td><input type=\"checkbox\" id=\"");
    push_str(&mut s, prefix);
    push_str(&mut s, "Ac\" title=\"Periodically attempts to reconnects to the target when disconnected\" ");
    push_str(&mut s, if auto_connect { "checked" } else { "" });
    push_str(&mut s, "></td>\n    </tr>\n    <tr>\n      <td class=\"label-col\" style=\"width: 300px;\"><strong>Target keepalive:</strong></td>\n      <td><input type=\"checkbox\" id=\"");
    push_str(&mut s, prefix);
    push_str(&mut s, "Ka\" title=\"Periodically polls the target when connected\" ");
    push_str(&mut s, if keepalive { "checked" } else { "" });
    push_str(&mut s, "></td>\n    </tr>\n    <tr>\n      <td class=\"label-col\" style=\"width: 300px;\"><strong>Firmware refresh:</strong></td>\n      <td><input type=\"checkbox\" id=\"");
    push_str(&mut s, prefix);
    push_str(&mut s, "Rst\" title=\"Periodically re-analyses the target firmware when connected\" ");
    push_str(&mut s, if refresh { "checked" } else { "" });
    push_str(&mut s, "></td>\n    </tr>\n  </table>\n  <div style=\"text-align: center; margin-top: 1rem;\">\n    <button id=\"");
    push_str(&mut s, prefix);
    push_str(&mut s, "Up\">Update ");
    push_str(&mut s, source);
    push_str(&mut s, " Settings</button>\n  </div>\n  <div id=\"");
    push_str(&mut s, prefix);
    push_str(&mut s, "Stat\" class=\"status-message\"></div>\n");
    s
}

/// The network settings form: mode, station and access point settings, each address blank where unset.
pub open spec fn settings_net_form_text(sta_fallback: bool, ap_only: bool, sta_ssid: Seq<char>, sta_password: Seq<char>, dhcp: bool, sta_ip: [u8; 4], sta_netmask: [u8; 4], sta_gw: [u8; 4], sta_dns0: [u8; 4], sta_dns1: [u8; 4], sta_ntp: [u8; 4], ap_ssid: Seq<char>, ap_password: Seq<char>, ap_ip: [u8; 4], ap_netmask: [u8; 4]) -> Seq<char> {
    "\n  <table class=\"device-info\">\n    <tr>\n      <td class=\"label-col\"><strong>Network Mode:</strong></td>\n      <td>\n        <select id=\"ntMode\" title=\"Network operation mode\">\n          <option value=\"StaFallbackToAp\" "@
        + (if sta_fallback { "selected"@ } else { ""@ })
        + ">Station (fallback to AP)</option>\n          <option value=\"ApOnly\" "@
        + (if ap_only { "selected"@ } else { ""@ })
        + ">Access Point only</option>\n        </select>\n      </td>\n    </tr>\n    <tr><td colspan=\"2\"><h3>Station Settings</h3></td></tr>\n    <tr>\n      <td class=\"label-col\"><strong>SSID:</strong></td>\n      <td><input type=\"text\" id=\"ntStaSsid\" value=\""@
        + sta_ssid
        + "\" maxlength=\"31\" title=\"Network name to connect to\"></td>\n    </tr>\n    <tr>\n      <td class=\"label-col\"><strong>Password:</strong></td>\n      <td><input type=\"password\" id=\"ntStaPass\" value=\""@
        + sta_password
        + "\" maxlength=\"63\" title=\"Network password\"></td>\n    </tr>\n    <tr>\n      <td class=\"label-col\"><strong>Use DHCP:</strong></td>\n      <td><input type=\"checkbox\" id=\"ntStaDhcp\" "@
        + (if dhcp { "checked"@ } else { ""@ })
        + " title=\"Get IP address automatically\"></td>\n    </tr>\n    <tr id=\"ntStaIpRow\">\n      <td class=\"label-col\"><strong>IP Address:</strong></td>\n      <td><input type=\"text\" id=\"ntStaIp\" value=\""@
        + ip_text(sta_ip)
        + "\" placeholder=\"192.168.1.100\" title=\"Static IP address\"></td>\n    </tr>\n    <tr id=\"ntStaNetmaskRow\">\n      <td class=\"label-col\"><strong>Netmask:</strong></td>\n      <td><input type=\"text\" id=\"ntStaNetmask\" value=\""@
        + ip_text(sta_netmask)
        + "\" placeholder=\"255.255.255.0\" title=\"Subnet mask\"></td>\n    </tr>\n    <tr id=\"ntStaGwRow\">\n      <td class=\"label-col\"><strong>Gateway:</strong></td>\n      <td><input type=\"text\" id=\"ntStaGw\" value=\""@
        + ip_text(sta_gw)
        + "\" placeholder=\"192.168.1.1\" title=\"Default gateway\"></td>\n    </tr>\n    <tr id=\"ntStaDns0Row\">\n      <td class=\"label-col\"><strong>Primary DNS:</strong></td>\n      <td><input type=\"text\" id=\"ntStaDns0\" value=\""@
        + ip_text(sta_dns0)
        + "\" placeholder=\"8.8.8.8\" title=\"Primary DNS server\"></td>\n    </tr>\n    <tr id=\"ntStaDns1Row\">\n      <td class=\"label-col\"><strong>Secondary DNS:</strong></td>\n      <td><input type=\"text\" id=\"ntStaDns1\" value=\""@
        + ip_text(sta_dns1)
        + "\" placeholder=\"8.8.4.4\" title=\"Secondary DNS server\"></td>\n    </tr>\n    <tr id=\"ntStaNtpRow\">\n      <td class=\"label-col\"><strong>NTP Server:</strong></td>\n      <td><input type=\"text\" id=\"ntStaNtp\" value=\""@
        + ip_text(sta_ntp)
        + "\" placeholder=\"192.168.1.100\" title=\"NTP server\"></td>\n    </tr>\n    <tr><td colspan=\"2\"><h3>Access Point Settings</h3></td></tr>\n    <tr>\n      <td class=\"label-col\"><strong>SSID:</strong></td>\n      <td><input type=\"text\" id=\"ntApSsid\" value=\""@
        + ap_ssid
        + "\" maxlength=\"31\" title=\"Access point network name\"></td>\n    </tr>\n    <tr>\n      <td class=\"label-col\"><strong>Password:</strong></td>\n      <td><input type=\"password\" id=\"ntApPass\" value=\""@
        + ap_password
        + "\" maxlength=\"63\" title=\"Access point password\"></td>\n    </tr>\n    <tr>\n      <td class=\"label-col\"><strong>IP Address:</strong></td>\n      <td><input type=\"text\" id=\"ntApIp\" value=\""@
        + ip_text(ap_ip)
        + "\" placeholder=\"192.168.4.1\" title=\"Access point IP address\"></td>\n    </tr>\n    <tr>\n      <td class=\"label-col\"><strong>Netmask:</strong></td>\n      <td><input type=\"text\" id=\"ntApNetmask\" value=\""@
        + ip_text(ap_netmask)
        + "\" placeholder=\"255.255.255.0\" title=\"Access point subnet mask\"></td>\n    </tr>\n  </table>\n  <div style=\"text-align: center; margin-top: 1rem;\">\n    <button id=\"ntUp\">Update Network Settings</button>\n  </div>\n  <div id=\"ntStat\" class=\"status-message\"></div>"@
}

/// The network settings form: mode, station and access point settings, each address blank where unset.
pub fn settings_net_form(net: &NetSettings) -> (r: String)
    ensures
        r@ == settings_net_form_text(net.mode == NetMode::StaFallbackToAp, net.mode == NetMode::ApOnly, net.sta_ssid@, net.sta_password@, net.sta_dhcp, net.sta_ip, net.sta_netmask, net.sta_gw, net.sta_dns0, net.sta_dns1, net.sta_ntp, net.ap_ssid@, net.ap_password@, net.ap_ip, net.ap_netmask),
{
    let sta_fallback = net.mode == NetMode::StaFallbackToAp;
    let ap_only = net.mode == NetMode::ApOnly;
    let dhcp = net.sta_dhcp;
    let mut s = string_of("\n  <table class=\"device-info\">\n    <tr>\n      <td class=\"label-col\"><strong>Network Mode:</strong></td>\n      <td>\n        <select id=\"ntMode\" title=\"Network operation mode\">\n          <option value=\"StaFallbackToAp\" ");
    push_str(&mut s, if sta_fallback { "selected" } else { "" });
    push_str(&mut s, ">Station (fallback to AP)</option>\n          <option value=\"ApOnly\" ");
    push_str(&mut s, if ap_only { "selected" } else { "" });
    push_str(&mut s, ">Access Point only</option>\n        </select>\n      </td>\n    </tr>\n    <tr><td colspan=\"2\"><h3>Station Settings</h3></td></tr>\n    <tr>\n      <td class=\"label-col\"><strong>SSID:</strong></td>\n      <td><input type=\"text\" id=\"ntStaSsid\" value=\"");
    push_str(&mut s, net.sta_ssid.as_str());
    push_str(&mut s, "\" maxlength=\"31\" title=\"Network name to connect to\"></td>\n    </tr>\n    <tr>\n      <td class=\"label-col\"><strong>Password:</strong></td>\n      <td><input type=\"password\" id=\"ntStaPass\" value=\"");
    push_str(&mut s, net.sta_password.as_str());
    push_str(&mut s, "\" maxlength=\"63\" title=\"Network password\"></td>\n    </tr>\n    <tr>\n      <td class=\"label-col\"><strong>Use DHCP:</strong></td>\n      <td><input type=\"checkbox\" id=\"ntStaDhcp\" ");
    push_str(&mut s, if dhcp { "checked" } else { "" });
    push_str(&mut s, " title=\"Get IP address automatically\"></td>\n    </tr>\n    <tr id=\"ntStaIpRow\">\n      <td class=\"label-col\"><strong>IP Address:</strong></td>\n      <td><input type=\"text\" id=\"ntStaIp\" value=\"");
    append_ip(&mut s, net.sta_ip);
    push_str(&mut s, "\" placeholder=\"192.168.1.100\" title=\"Static IP address\"></td>\n    </tr>\n    <tr id=\"ntStaNetmaskRow\">\n      <td class=\"label-col\"><strong>Netmask:</strong></td>\n      <td><input type=\"text\" id=\"ntStaNetmask\" value=\"");
    append_ip(&mut s, net.sta_netmask);
    push_str(&mut s, "\" placeholder=\"255.255.255.0\" title=\"Subnet mask\"></td>\n    </tr>\n    <tr id=\"ntStaGwRow\">\n      <td class=\"label-col\"><strong>Gateway:</strong></td>\n      <td><input type=\"text\" id=\"ntStaGw\" value=\"");
    append_ip(&mut s, net.sta_gw);
    push_str(&mut s, "\" placeholder=\"192.168.1.1\" title=\"Default gateway\"></td>\n    </tr>\n    <tr id=\"ntStaDns0Row\">\n      <td class=\"label-col\"><strong>Primary DNS:</strong></td>\n      <td><input type=\"text\" id=\"ntStaDns0\" value=\"");
    append_ip(&mut s, net.sta_dns0);
    push_str(&mut s, "\" placeholder=\"8.8.8.8\" title=\"Primary DNS server\"></td>\n    </tr>\n    <tr id=\"ntStaDns1Row\">\n      <td class=\"label-col\"><strong>Secondary DNS:</strong></td>\n      <td><input type=\"text\" id=\"ntStaDns1\" value=\"");
    append_ip(&mut s, net.sta_dns1);
    push_str(&mut s, "\" placeholder=\"8.8.4.4\" title=\"Secondary DNS server\"></td>\n    </tr>\n    <tr id=\"ntStaNtpRow\">\n      <td class=\"label-col\"><strong>NTP Server:</strong></td>\n      <td><input type=\"text\" id=\"ntStaNtp\" value=\"");
    append_ip(&mut s, net.sta_ntp);
    push_str(&mut s, "\" placeholder=\"192.168.1.100\" title=\"NTP server\"></td>\n    </tr>\n    <tr><td colspan=\"2\"><h3>Access Point Settings</h3></td></tr>\n    <tr>\n      <td class=\"label-col\"><strong>SSID:</strong></td>\n      <td><input type=\"text\" id=\"ntApSsid\" value=\"");
    push_str(&mut s, net.ap_ssid.as_str());
    push_str(&mut s, "\" maxlength=\"31\" title=\"Access point network name\"></td>\n    </tr>\n    <tr>\n      <td class=\"label-col\"><strong>Password:</strong></td>\n      <td><input type=\"password\" id=\"ntApPass\" value=\"");
    push_str(&mut s, net.ap_password.as_str());
    push_str(&mut s, "\" maxlength=\"63\" title=\"Access point password\"></td>\n    </tr>\n    <tr>\n      <td class=\"label-col\"><strong>IP Address:</strong></td>\n      <td><input type=\"text\" id=\"ntApIp\" value=\"");
    append_ip(&mut s, net.ap_ip);
    push_str(&mut s, "\" placeholder=\"192.168.4.1\" title=\"Access point IP address\"></td>\n    </tr>\n    <tr>\n      <td class=\"label-col\"><strong>Netmask:</strong></td>\n      <td><input type=\"text\" id=\"ntApNetmask\" value=\"");
    append_ip(&mut s, net.ap_netmask);
    push_str(&mut s, "\" placeholder=\"255.255.255.0\" title=\"Access point subnet mask\"></td>\n    </tr>\n  </table>\n  <div style=\"text-align: center; margin-top: 1rem;\">\n    <button id=\"ntUp\">Update Network Settings</button>\n  </div>\n  <div id=\"ntStat\" class=\"status-message\"></div>");
    s
}

/// The settings page around its network, runtime SWD and stored SWD forms.
pub open spec fn page_settings_body_text(net_form: Seq<char>, sr_form: Seq<char>, st_form: Seq<char>) -> Seq<char> {
    "\n<h1>Airfrog Settings</h1>\n<div class=\"card\">\n  <h2>Network Settings</h2>\n  <p>All settings in this section take effect after a reboot</p>\n"@
        + net_form
        + "\n</div>\n<div class=\"card\">\n  <h2>SWD Settings - Runtime</h2>\n  <p>All settings in this section reset to stored config after a reboot</p>\n"@
        + sr_form
        + "\n</div>\n<div class=\"card\">\n  <h2>SWD Settings - Stored</h2>\n  <p>All settings in this section take effect after a reboot</p>\n"@
        + st_form
        + "\n</div>\n<script src=\""@
        + asset_path(Asset::ConfigUpdateJs)
        + "\"></script>\n"@
}

/// The settings page around its network, runtime SWD and stored SWD forms.
pub fn page_settings_body(net_form: &str, sr_form: &str, st_form: &str) -> (r: String)
    ensures
        r@ == page_settings_body_text(net_form@, sr_form@, st_form@),
{
    let mut s = string_of("\n<h1>Airfrog Settings</h1>\n<div class=\"card\">\n  <h2>Network Settings</h2>\n  <p>All settings in this section take effect after a reboot</p>\n");
    push_str(&mut s, net_form);
    push_str(&mut s, "\n</div>\n<div class=\"card\">\n  <h2>SWD Settings - Runtime</h2>\n  <p>All settings in this section reset to stored config after a reboot</p>\n");
    push_str(&mut s, sr_form);
    push_str(&mut s, "\n</div>\n<div class=\"card\">\n  <h2>SWD Settings - Stored</h2>\n  <p>All settings in this section take effect after a reboot</p>\n");
    push_str(&mut s, st_form);
    push_str(&mut s, "\n</div>\n<script src=\"");
    Asset::ConfigUpdateJs.append_path(&mut s);
    push_str(&mut s, "\"></script>\n");
    s
}

/// The target status card: status class and text, MCU, and the firmware rows.
pub open spec fn html_summary_card_text(status_class: Seq<char>, status_text: Seq<char>, mcu: Seq<char>, fw_rows: Seq<char>) -> Seq<char> {
    "\n<div class=\"card\">\n  <h2 style=\"text-align: center; transform: translateX(-100px)\">Target Status \n    <span class=\""@
        + status_class
        + "\">"@
        + status_text
        + "</span>\n    <button class=\"refresh-btn inline\" onclick=\"location.reload()\">Refresh</button>\n  </h3>\n    <table class=\"device-info\">\n    <tr><td class=\"label-col\"><strong>MCU:</strong></td><td>"@
        + mcu
        + "</td></tr>\n    "@
        + fw_rows
        + "\n    </table>\n</div>"@
}

/// The target status card: status class and text, MCU, and the firmware rows.
pub fn html_summary_card(status_class: &str, status_text: &str, mcu: &str, fw_rows: &str) -> (r: String)
    ensures
        r@ == html_summary_card_text(status_class@, status_text@, mcu@, fw_rows@),
{
    let mut s = string_of("\n<div class=\"card\">\n  <h2 style=\"text-align: center; transform: translateX(-100px)\">Target Status \n    <span class=\"");
    push_str(&mut s, status_class);
    push_str(&mut s, "\">");
    push_str(&mut s, status_text);
    push_str(&mut s, "</span>\n    <button class=\"refresh-btn inline\" onclick=\"location.reload()\">Refresh</button>\n  </h3>\n    <table class=\"device-info\">\n    <tr><td class=\"label-col\"><strong>MCU:</strong></td><td>");
    push_str(&mut s, mcu);
    push_str(&mut s, "</td></tr>\n    ");
    push_str(&mut s, fw_rows);
    push_str(&mut s, "\n    </table>\n</div>");
    s
}


/// What the target task reported, as the status card shows it.
pub struct TargetStatus {
    pub connected: bool,
    pub auto_connect: bool,
    pub mcu: Option<String>,
}

/// A firmware table row.
pub open spec fn fw_row(value: Seq<char>) -> Seq<char> {
    "<tr><td class=\"label-col\"><strong>Firmware:</strong></td><td>"@ + value + "</td></tr>"@
}

/// The auto connect table row.
pub open spec fn auto_row(value: Seq<char>) -> Seq<char> {
    "<tr><td class=\"label-col\"><strong>Auto Connect:</strong></td><td>"@ + value
        + "</td></tr>"@
}

/// The target status card. A target is connected where the status says
/// so. With the firmware summary asked for: a connected target shows its
/// MCU and the firmware rows rendered from its firmware, or an unknown
/// firmware row and the auto connect row; otherwise MCU and firmware are
/// `None`, with the auto connect row. Without it: a connected target's
/// firmware is "Details below"; otherwise `None` with the auto connect row.
/// The MCU is `None` where the status names none; auto connect is
/// `Unknown` without a status.
pub open spec fn html_summary_text(
    status: Option<(bool, bool, Option<Seq<char>>)>,
    firmware_html: Option<Seq<char>>,
    output_fw_summary: bool,
) -> Seq<char> {
    let connected = match status {
        Some((c, _, _)) => c,
        None => false,
    };
    let auto = auto_row(
        match status {
            Some((_, true, _)) => "Enabled"@,
            Some((_, false, _)) => "Disabled"@,
            None => "Unknown"@,
        },
    );
    let mcu = match status {
        Some((_, _, Some(m))) => m,
        _ => "None"@,
    };
    let (mcu, fw_rows) = if output_fw_summary {
        if connected {
            (
                mcu,
                match firmware_html {
                    Some(h) => h,
                    None => fw_row("Unknown"@) + auto,
                },
            )
        } else {
            ("None"@, fw_row("None"@) + auto)
        }
    } else if connected {
        (mcu, fw_row("Details below"@))
    } else {
        (mcu, fw_row("None"@) + auto)
    };
    html_summary_card_text(
        if connected {
            "status ok"@
        } else {
            "status error"@
        },
        if connected {
            "Connected"@
        } else {
            "Disconnected"@
        },
        mcu,
        fw_rows,
    )
}

/// A target status, as values.
pub open spec fn status_view(s: Option<&TargetStatus>) -> Option<(bool, bool, Option<Seq<char>>)> {
    match s {
        Some(t) => Some(
            (
                t.connected,
                t.auto_connect,
                match t.mcu {
                    Some(m) => Some(m@),
                    None => None,
                },
            ),
        ),
        None => None,
    }
}

/// The target status card (see [`html_summary_text`]); `firmware_html`
/// is the firmware summary rendered from the target's firmware, where
/// there is one.
pub fn html_summary(
    status: Option<&TargetStatus>,
    firmware_html: Option<String>,
    output_fw_summary: bool,
) -> (r: String)
    ensures
        r@ == html_summary_text(
            status_view(status),
            match firmware_html {
                Some(h) => Some(h@),
                None => None,
            },
            output_fw_summary,
        ),
{
    let connected = match status {
        Some(s) => s.connected,
        None => false,
    };
    let (status_class, status_text) = if connected {
        ("status ok", "Connected")
    } else {
        ("status error", "Disconnected")
    };
    let auto_value = match status {
        Some(s) => if s.auto_connect {
            "Enabled"
        } else {
            "Disabled"
        },
        None => "Unknown",
    };
    let mut auto = string_of("<tr><td class=\"label-col\"><strong>Auto Connect:</strong></td><td>");
    push_str(&mut auto, auto_value);
    push_str(&mut auto, "</td></tr>");
    let mcu: &str = match status {
        Some(s) => match &s.mcu {
            Some(m) => m.as_str(),
            None => "None",
        },
        None => "None",
    };
    let mut fw_rows = string_of("<tr><td class=\"label-col\"><strong>Firmware:</strong></td><td>");
    let mcu_shown: &str;
    if output_fw_summary {
        if connected {
            mcu_shown = mcu;
            match firmware_html {
                Some(h) => {
                    fw_rows = h;
                },
                None => {
                    push_str(&mut fw_rows, "Unknown");
                    push_str(&mut fw_rows, "</td></tr>");
                    push_str(&mut fw_rows, auto.as_str());
                },
            }
        } else {
            mcu_shown = "None";
            push_str(&mut fw_rows, "None");
                    push_str(&mut fw_rows, "</td></tr>");
            push_str(&mut fw_rows, auto.as_str());
        }
    } else if connected {
        mcu_shown = mcu;
        push_str(&mut fw_rows, "Details below");
                    push_str(&mut fw_rows, "</td></tr>");
    } else {
        mcu_shown = mcu;
        push_str(&mut fw_rows, "None");
                    push_str(&mut fw_rows, "</td></tr>");
        push_str(&mut fw_rows, auto.as_str());
    }
    proof {
        assert(auto@ == auto_row(
            match status_view(status) {
                Some((_, true, _)) => "Enabled"@,
                Some((_, false, _)) => "Disabled"@,
                None => "Unknown"@,
            },
        ));
    }
    html_summary_card(status_class, status_text, mcu_shown, fw_rows.as_str())
}

/// What is known of the target's firmware for the firmware page.
pub enum FirmwareInfo {
    /// The target reported no firmware information.
    Missing,
    /// No firmware handler recognised the information.
    UnknownType,
    /// A handler recognised it but could not render it.
    Unparsable,
    /// A handler rendered it.
    Html(String),
}

/// The firmware card for what is known of the target's firmware.
pub open spec fn firmware_card(info: FirmwareInfo) -> Seq<char> {
    match info {
        FirmwareInfo::Missing => "<div id=\"fw-info\" class=\"card\"><p>No firmware information available.</p><br/><br/><br/><br/><br/></div>"@,
        FirmwareInfo::UnknownType => "<div id=\"fw-info\" class=\"card\"><p>Unable to parse firmware type.</p></div>"@,
        FirmwareInfo::Unparsable => "<div id=\"fw-info\" class=\"card\"><p>Unable to parse firmware information.</p></div>"@,
        FirmwareInfo::Html(h) => h@,
    }
}

/// The firmware information page.
pub fn page_target_firmware(info: FirmwareInfo) -> (r: HtmlContent)
    ensures
        r.0@ == page(page_target_firmware_body_text(firmware_card(info))),
{
    let card = match &info {
        FirmwareInfo::Missing => string_of(
            "<div id=\"fw-info\" class=\"card\"><p>No firmware information available.</p><br/><br/><br/><br/><br/></div>",
        ),
        FirmwareInfo::UnknownType => string_of(
            "<div id=\"fw-info\" class=\"card\"><p>Unable to parse firmware type.</p></div>",
        ),
        FirmwareInfo::Unparsable => string_of(
            "<div id=\"fw-info\" class=\"card\"><p>Unable to parse firmware information.</p></div>",
        ),
        FirmwareInfo::Html(h) => string_of(h.as_str()),
    };
    HtmlContent::new(page_target_firmware_body(card.as_str()))
}

/// airfrog's state at run time, as the system card shows it.
pub struct SystemInfo {
    pub mcu: String,
    pub clock_speed_mhz: u32,
    pub mac_address: String,
    pub reset_reason: String,
    pub uptime_secs: u64,
    pub heap_used: usize,
    pub heap_size: usize,
}

/// How airfrog was built, as the build and project cards show it.
pub struct BuildInfo {
    pub version: String,
    pub build_time: String,
    pub build_date: String,
    pub features: String,
    pub profile: String,
    pub rustc_version: String,
    pub license: String,
}

/// The information page: system, build and project cards.
pub fn page_info(flash_size_bytes: usize, system: &SystemInfo, build: &BuildInfo) -> (r: HtmlContent)
    requires
        system.heap_size > 0,
        system.heap_used * 100 <= usize::MAX,
    ensures
        r.0@ == page(
            page_info_body_text(
                html_system_info_text(
                    system.mcu@,
                    flash_size_bytes as nat,
                    system.clock_speed_mhz as nat,
                    system.mac_address@,
                    system.reset_reason@,
                    system.uptime_secs as nat,
                    system.heap_used as nat,
                    system.heap_size as nat,
                ),
                html_build_info_text(
                    build.version@,
                    build.build_time@,
                    build.build_date@,
                    build.features@,
                    build.profile@,
                    strip_rustc(build.rustc_version@),
                ),
                html_project_info_text(build.license@),
            ),
        ),
{
    let system_card = html_system_info(
        system.mcu.as_str(),
        flash_size_bytes,
        system.clock_speed_mhz,
        system.mac_address.as_str(),
        system.reset_reason.as_str(),
        system.uptime_secs,
        system.heap_used,
        system.heap_size,
    );
    let build_card = html_build_info(
        build.version.as_str(),
        build.build_time.as_str(),
        build.build_date.as_str(),
        build.features.as_str(),
        build.profile.as_str(),
        build.rustc_version.as_str(),
    );
    let project_card = html_project_info(build.license.as_str());
    HtmlContent::new(page_info_body(system_card.as_str(), build_card.as_str(), project_card.as_str()))
}

/// The runtime SWD settings form.
pub fn settings_swd_runtime(settings: &SwdSettings) -> (r: String)
    ensures
        r@ == settings_swd_text(
            "sr"@,
            "Runtime"@,
            settings.speed,
            settings.auto_connect,
            settings.keepalive,
            settings.refresh,
        ),
{
    settings_swd("sr", "Runtime", settings)
}

/// The stored SWD settings form.
pub fn settings_swd_stored(settings: &SwdSettings) -> (r: String)
    ensures
        r@ == settings_swd_text(
            "st"@,
            "Stored"@,
            settings.speed,
            settings.auto_connect,
            settings.keepalive,
            settings.refresh,
        ),
{
    settings_swd("st", "Stored", settings)
}

/// What stands in for the runtime SWD form when the target task reported
/// no status.
pub open spec fn no_runtime_settings() -> Seq<char> {
    "<p>Unable to retrieve Airfrog settings</p><br/><br/><br/>"@
}

/// The settings page: the network form, the runtime SWD form (where the
/// target task reported its settings) and the stored SWD form.
pub fn page_settings(runtime: Option<&SwdSettings>, stored: &SwdSettings, net: &NetSettings) -> (r: HtmlContent)
    ensures
        r.0@ == page(
            page_settings_body_text(
                settings_net_form_text(
                    net.mode == NetMode::StaFallbackToAp,
                    net.mode == NetMode::ApOnly,
                    net.sta_ssid@,
                    net.sta_password@,
                    net.sta_dhcp,
                    net.sta_ip,
                    net.sta_netmask,
                    net.sta_gw,
                    net.sta_dns0,
                    net.sta_dns1,
                    net.sta_ntp,
                    net.ap_ssid@,
                    net.ap_password@,
                    net.ap_ip,
                    net.ap_netmask,
                ),
                match runtime {
                    Some(rt) => settings_swd_text(
                        "sr"@,
                        "Runtime"@,
                        rt.speed,
                        rt.auto_connect,
                        rt.keepalive,
                        rt.refresh,
                    ),
                    None => no_runtime_settings(),
                },
                settings_swd_text(
                    "st"@,
                    "Stored"@,
                    stored.speed,
                    stored.auto_connect,
                    stored.keepalive,
                    stored.refresh,
                ),
            ),
        ),
{
    let sr_form = match runtime {
        Some(rt) => settings_swd_runtime(rt),
        None => string_of("<p>Unable to retrieve Airfrog settings</p><br/><br/><br/>"),
    };
    let st_form = settings_swd_stored(stored);
    let net_form = settings_net_form(net);
    HtmlContent::new(page_settings_body(net_form.as_str(), sr_form.as_str(), st_form.as_str()))
}


/// The entity a character stands as in HTML text: `&`, `<`, `>`, `"` and
/// `'` are escaped; every other character stands for itself.
pub open spec fn escape_char(c: char) -> Seq<char> {
    if c == '&' {
        "&amp;"@
    } else if c == '<' {
        "&lt;"@
    } else if c == '>' {
        "&gt;"@
    } else if c == '"' {
        "&quot;"@
    } else if c == '\'' {
        "&#39;"@
    } else {
        seq![c]
    }
}

/// Text escaped for HTML, character by character.
pub open spec fn escape_html(s: Seq<char>) -> Seq<char>
    decreases s.len(),
{
    if s.len() == 0 {
        Seq::empty()
    } else {
        escape_html(s.drop_last()) + escape_char(s.last())
    }
}

/// Appends `text`, escaped for HTML (see [`escape_html`]), to `s`.
pub fn append_escaped(s: &mut String, text: &str)
    ensures
        final(s)@ == old(s)@ + escape_html(text@),
{
    let cs = chars_of(text);
    let ghost s0 = s@;
    let mut i: usize = 0;
    while i < cs.len()
        invariant
            cs@ == text@,
            i <= cs@.len(),
            s@ == s0 + escape_html(cs@.take(i as int)),
        decreases cs@.len() - i,
    {
        let c = cs[i];
        let ghost before = s@;
        if c == '&' {
            push_str(s, "&amp;");
        } else if c == '<' {
            push_str(s, "&lt;");
        } else if c == '>' {
            push_str(s, "&gt;");
        } else if c == '"' {
            push_str(s, "&quot;");
        } else if c == '\'' {
            push_str(s, "&#39;");
        } else {
            crate::fmt::push_char(s, c);
            assert(before.push(c) =~= before + seq![c]);
        }
        assert(cs@.take(i + 1).drop_last() =~= cs@.take(i as int));
        assert(s0 + escape_html(cs@.take(i + 1)) =~= s0 + escape_html(cs@.take(i as int)) + escape_char(c));
        i = i + 1;
    }
    assert(cs@.take(cs@.len() as int) =~= cs@);
}

/// `text` escaped for HTML (see [`escape_html`]).
pub fn escape(text: &str) -> (r: String)
    ensures
        r@ == escape_html(text@),
{
    let mut s = String::new();
    append_escaped(&mut s, text);
    assert(Seq::<char>::empty() + escape_html(text@) =~= escape_html(text@));
    s
}


/// Whether a character is one that HTML escaping replaces.
pub open spec fn is_special(c: char) -> bool {
    c == '&' || c == '<' || c == '>' || c == '"' || c == '\''
}

/// Escaping leaves text without special characters as it is.
pub proof fn lemma_escape_plain(s: Seq<char>)
    requires
        forall|i: int| 0 <= i < s.len() ==> !is_special(#[trigger] s[i]),
    ensures
        escape_html(s) == s,
    decreases s.len(),
{
    if s.len() > 0 {
        lemma_escape_plain(s.drop_last());
        assert(s.drop_last() + seq![s.last()] =~= s);
    }
}

/// Escaping text followed by more text escapes each part in turn.
pub proof fn lemma_escape_concat(a: Seq<char>, b: Seq<char>)
    ensures
        escape_html(a + b) == escape_html(a) + escape_html(b),
    decreases b.len(),
{
    if b.len() == 0 {
        assert(a + b =~= a);
        assert(escape_html(a) + escape_html(b) =~= escape_html(a));
    } else {
        lemma_escape_concat(a, b.drop_last());
        assert((a + b).drop_last() =~= a + b.drop_last());
        assert(escape_html(a) + escape_html(b.drop_last()) + escape_char(b.last()) =~= escape_html(a) + (escape_html(b.drop_last()) + escape_char(b.last())));
    }
}

} // verus!
