//! Settings: those of the directory server and those of the page server.

use vstd::prelude::*;

verus! {

/// Settings of the directory server.
pub struct Config {
    pub port: u16,
    pub directory: String,
    pub index_file: String,
    pub not_found_uri: String,
}

impl Default for Config {
    fn default() -> (r: Self)
        ensures
            r.port == 3000,
            r.directory@ == "./"@,
            r.index_file@ == "index.html"@,
            r.not_found_uri@ == "404.html"@,
    {
        Config {
            port: 3000,
            directory: "./".to_owned(),
            index_file: "index.html".to_owned(),
            not_found_uri: "404.html".to_owned(),
        }
    }
}

/// Settings of the page server: its port, its page directory and its static directory.
pub struct QServeOptions {
    pub port: String,
    pub dir: String,
    pub static_dir: String,
}

/// The settings as a three-line listing.
pub open spec fn options_text(port: Seq<char>, dir: Seq<char>, static_dir: Seq<char>) -> Seq<char> {
    "port = \""@ + port + "\"\ndir = \""@ + dir + "\"\nstatic_dir = \""@ + static_dir + "\" "@
}

impl Default for QServeOptions {
    fn default() -> (r: Self)
        ensures
            r.port@ == "2500"@,
            r.dir@ == "./my_project_html"@,
            r.static_dir@ == "./my_project_html/static"@,
    {
        QServeOptions {
            port: "2500".to_owned(),
            dir: "./my_project_html".to_owned(),
            static_dir: "./my_project_html/static".to_owned(),
        }
    }
}

impl QServeOptions {
    /// The settings as a three-line listing, `port = "<port>"` and so on.
    pub fn to_string(&self) -> (r: String)
        ensures
            r@ == options_text(self.port@, self.dir@, self.static_dir@),
    {
        let mut out = "port = \"".to_owned();
        out.append(self.port.as_str());
        out.append("\"\ndir = \"");
        out.append(self.dir.as_str());
        out.append("\"\nstatic_dir = \"");
        out.append(self.static_dir.as_str());
        out.append("\" ");
        assert(out@ =~= options_text(self.port@, self.dir@, self.static_dir@));
        out
    }
}

} // verus!
