//! The server's configuration file: listening addresses and ports, data
//! directories and the database file. Paths are held as text.
use vstd::prelude::*;

verus! {

#[derive(Debug, Clone)]
pub struct ServerSettings {
    pub host: String,
    pub dns: String,
    pub http_port: u16,
    pub game_port: u16,
}

#[derive(Debug, Clone)]
pub struct PathConfig {
    pub data_dir: String,
    pub excel_data: String,
    pub static_data: String,
}

#[derive(Debug, Clone)]
pub struct DatabaseConfig {
    pub path: String,
}

#[derive(Debug, Clone)]
pub struct ServerConfig {
    pub server: ServerSettings,
    pub paths: PathConfig,
    pub database: DatabaseConfig,
}

/// A path without a Windows prefix: it does not start with `\\`, nor with
/// `/` followed by a separator (`//server/share` and `/\\server` are UNC
/// prefixes, since outside verbatim prefixes `/` is a separator too), and
/// its second character is not `:` (no drive letter).
pub open spec fn no_path_prefix(p: Seq<char>) -> bool {
    &&& p.len() == 0 || p[0] != '\\'
    &&& p.len() < 2 || !(p[0] == '/' && (p[1] == '/' || p[1] == '\\'))
    &&& p.len() < 2 || p[1] != ':'
}

/// A verbatim prefix, `\\?\`: written with backslashes only.
pub open spec fn verbatim_prefixed(p: Seq<char>) -> bool {
    p.len() >= 4 && p[0] == '\\' && p[1] == '\\' && p[2] == '?' && p[3] == '\\'
}

/// A path that every platform reads as relative: not empty, no leading
/// separator (`/` or `\`) and no prefix.
pub open spec fn plainly_relative(p: Seq<char>) -> bool {
    p.len() > 0 && p[0] != '/' && no_path_prefix(p)
}

/// A path rooted at a single `/`: absolute on Unix, and on Windows rooted
/// without a prefix.
pub open spec fn slash_rooted(p: Seq<char>) -> bool {
    p.len() > 0 && p[0] == '/' && (p.len() < 2 || (p[1] != '/' && p[1] != '\\'))
}

/// A directory that a relative path is joined under with one separator:
/// not empty, not ending in a separator, not a bare drive such as `C:`
/// (under which Windows adds no separator) and without a verbatim prefix
/// (under which Windows normalises the joined path). A drive letter, a UNC
/// prefix or a leading separator is allowed.
pub open spec fn plain_dir(d: Seq<char>) -> bool {
    &&& d.len() > 0
    &&& d.last() != '/' && d.last() != '\\'
    &&& !(d.len() == 2 && d[1] == ':')
    &&& !verbatim_prefixed(d)
}

/// `r` is what `p` becomes under `dir` on any platform: a path rooted at
/// `/` stays as it is, and a plainly relative path goes under `dir` after
/// the platform's separator (`/` on Unix, `\` on Windows).
pub open spec fn resolved_as(dir: Seq<char>, p: Seq<char>, r: Seq<char>) -> bool {
    &&& (slash_rooted(p) && no_path_prefix(dir) ==> r == p)
    &&& (plainly_relative(p) && plain_dir(dir) ==> (r == dir + seq!['/'] + p || r == dir + seq![
        '\\',
    ] + p))
}

/// std's `Path::is_relative`: whether a path is relative on this platform.
/// Claimed only of paths that every platform reads as relative (std's
/// documentation: on Unix a path is absolute when it starts with the root,
/// on Windows when it has a prefix and a root); of others the answer
/// depends on the platform and nothing is claimed.
#[verifier::external_body]
fn is_relative_path(p: &str) -> (r: bool)
    ensures
        plainly_relative(p@) ==> r,
{
    std::path::Path::new(p).is_relative()
}

/// std's `Path::join`, read back as text. Claimed, as `PathBuf::push`
/// documents it: a path rooted at `/` replaces a directory without a
/// prefix (on Unix as an absolute path, on Windows as a root without a
/// prefix, which keeps the directory's prefix, here none); a plainly
/// relative path is adjoined to a plain directory after one separator, the
/// platform's main one (`/` on Unix, `\\` on Windows). Of other inputs
/// nothing is claimed.
#[verifier::external_body]
fn join_path(dir: &str, p: &str) -> (r: String)
    ensures
        slash_rooted(p@) && no_path_prefix(dir@) ==> r@ == p@,
        plainly_relative(p@) && plain_dir(dir@) ==> (r@ == dir@ + seq!['/'] + p@ || r@ == dir@
            + seq!['\\'] + p@),
{
    std::path::Path::new(dir).join(p).to_string_lossy().into_owned()
}

/// The path itself where it is absolute, else the path under `dir`.
fn resolved(dir: &str, p: &String) -> (r: String)
    ensures
        resolved_as(dir@, p@, r@),
{
    if is_relative_path(p.as_str()) {
        join_path(dir, p.as_str())
    } else {
        p.clone()
    }
}

impl ServerConfig {
    /// Makes the relative paths of the file relative to the directory that
    /// holds it; absolute paths and all other settings stay as they are.
    pub fn resolve_paths(&mut self, config_dir: &str)
        ensures
            final(self).server.host@ == old(self).server.host@,
            final(self).server.dns@ == old(self).server.dns@,
            final(self).server.http_port == old(self).server.http_port,
            final(self).server.game_port == old(self).server.game_port,
            resolved_as(config_dir@, old(self).database.path@, final(self).database.path@),
            resolved_as(config_dir@, old(self).paths.data_dir@, final(self).paths.data_dir@),
            resolved_as(config_dir@, old(self).paths.excel_data@, final(self).paths.excel_data@),
            resolved_as(config_dir@, old(self).paths.static_data@, final(self).paths.static_data@),
    {
        self.database.path = resolved(config_dir, &self.database.path);
        self.paths.data_dir = resolved(config_dir, &self.paths.data_dir);
        self.paths.excel_data = resolved(config_dir, &self.paths.excel_data);
        self.paths.static_data = resolved(config_dir, &self.paths.static_data);
    }
}

/// The address the servers bind to.
pub fn host(config: &ServerConfig) -> (r: &str)
    ensures
        r@ == config.server.host@,
{
    config.server.host.as_str()
}

/// The host name handed to clients.
pub fn dns(config: &ServerConfig) -> (r: &str)
    ensures
        r@ == config.server.dns@,
{
    config.server.dns.as_str()
}

pub fn http_port(config: &ServerConfig) -> (r: u16)
    ensures
        r == config.server.http_port,
{
    config.server.http_port
}

pub fn game_port(config: &ServerConfig) -> (r: u16)
    ensures
        r == config.server.game_port,
{
    config.server.game_port
}

/// The directory of the static data files.
pub fn data_directory(config: &ServerConfig) -> (r: &str)
    ensures
        r@ == config.paths.static_data@,
{
    config.paths.static_data.as_str()
}

/// The directory of the game's data tables.
pub fn excel_data_directory(config: &ServerConfig) -> (r: &str)
    ensures
        r@ == config.paths.excel_data@,
{
    config.paths.excel_data.as_str()
}

} // verus!
