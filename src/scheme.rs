use vstd::prelude::*;
use vstd::string::*;

verus! {

/// A scheme or protocol of a repository URL: how to talk to the repository.
#[derive(PartialEq, Eq, Debug, Hash, Ord, PartialOrd, Clone)]
pub enum Scheme {
    /// A local resource that is accessible on the current host.
    File,
    /// A git daemon, like `File` over TCP/IP.
    Git,
    /// Launch `git-upload-pack` through an `ssh` tunnel.
    Ssh,
    /// Use the HTTP protocol to talk to git servers.
    Http,
    /// Use the HTTPS protocol to talk to git servers.
    Https,
    /// Any other protocol or transport that isn't known at compile time.
    Ext(String),
}

impl Scheme {
    /// The name a URL spells this scheme with.
    pub open spec fn spec_name(&self) -> Seq<char> {
        match self {
            Scheme::File => "file"@,
            Scheme::Git => "git"@,
            Scheme::Ssh => "ssh"@,
            Scheme::Http => "http"@,
            Scheme::Https => "https"@,
            Scheme::Ext(name) => name@,
        }
    }

    /// The scheme that a URL names `value`: one of the known ones when spelled
    /// exactly as they are, an extension scheme carrying `value` otherwise.
    pub fn parse(value: &str) -> (r: Scheme)
        ensures
            value@ == "ssh"@ ==> r == Scheme::Ssh,
            value@ == "file"@ ==> r == Scheme::File,
            value@ == "git"@ ==> r == Scheme::Git,
            value@ == "http"@ ==> r == Scheme::Http,
            value@ == "https"@ ==> r == Scheme::Https,
            r is Ext <==> !(value@ == "ssh"@ || value@ == "file"@ || value@ == "git"@ || value@
                == "http"@ || value@ == "https"@),
            r.spec_name() == value@,
    {
        proof {
            lemma_names_distinct();
        }
        let v = value.to_owned();
        if v == String::from_str("ssh") {
            Scheme::Ssh
        } else if v == String::from_str("file") {
            Scheme::File
        } else if v == String::from_str("git") {
            Scheme::Git
        } else if v == String::from_str("http") {
            Scheme::Http
        } else if v == String::from_str("https") {
            Scheme::Https
        } else {
            Scheme::Ext(v)
        }
    }

    /// Return ourselves parseable name.
    pub fn as_str(&self) -> (r: &str)
        ensures
            r@ == self.spec_name(),
    {
        match self {
            Scheme::File => "file",
            Scheme::Git => "git",
            Scheme::Ssh => "ssh",
            Scheme::Http => "http",
            Scheme::Https => "https",
            Scheme::Ext(name) => name.as_str(),
        }
    }
}

impl<'a> From<&'a str> for Scheme {
    fn from(value: &'a str) -> Scheme {
        Scheme::parse(value)
    }
}

/// `From` carries no promise of its own: `Scheme::parse` states the mapping. A
/// scheme equal to the result cannot be named here, since two `String`s with the
/// same characters are not known to be the same value.
impl<'a> vstd::std_specs::convert::FromSpecImpl<&'a str> for Scheme {
    open spec fn obeys_from_spec() -> bool {
        false
    }

    open spec fn from_spec(v: &'a str) -> Scheme {
        choose|s: Scheme| s.spec_name() == v@
    }
}

/// The five known scheme names differ from one another.
proof fn lemma_names_distinct()
    ensures
        "ssh"@ != "file"@,
        "ssh"@ != "git"@,
        "ssh"@ != "http"@,
        "ssh"@ != "https"@,
        "file"@ != "git"@,
        "file"@ != "http"@,
        "file"@ != "https"@,
        "git"@ != "http"@,
        "git"@ != "https"@,
        "http"@ != "https"@,
{
    reveal_strlit("ssh");
    reveal_strlit("file");
    reveal_strlit("git");
    reveal_strlit("http");
    reveal_strlit("https");
    assert("ssh"@[0] == 's');
    assert("file"@[0] == 'f');
    assert("git"@[0] == 'g');
    assert("http"@[0] == 'h');
    assert("https"@[0] == 'h');
    assert("http"@.len() == 4);
    assert("https"@.len() == 5);
}

} // verus!
