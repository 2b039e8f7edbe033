//! The requests the client makes to the server's RPC services.
use vstd::prelude::*;
use crate::text::{bufs, chars_of, concat, split_on_pair, split_pair, string_of, views};

verus! {

/// A request to the server.
#[derive(Debug, Clone, PartialEq, Eq)]
pub enum RequestType {
    Results,
    SubmitDetails(String),
    Login(String, String),
}

/// The RPC payload of a request, with `{}` where the module base (and, for a login,
/// the login and the password) go.
pub open spec fn payload_template_of(r: RequestType) -> Seq<char> {
    match r {
        RequestType::Results => "7|0|5|{}|03D93DB883748ED9135F6A4744CFFA07|testerka.gwt.client.submits.SubmitsService|getAllSubmits|Z|1|2|3|4|1|5|1|"@,
        RequestType::SubmitDetails(id) => "7|0|5|{}|03D93DB883748ED9135F6A4744CFFA07|testerka.gwt.client.submits.SubmitsService|getSubmitDetails|I|1|2|3|4|1|5|"@ + id@ + "|"@,
        RequestType::Login(_, _) => "7|0|7|{}|620F3CE7784C04B839FC8E10C6C4A753|testerka.gwt.client.acess.PrivilegesService|login|java.lang.String/2004016611|{}|{}|1|2|3|4|2|5|5|6|7|"@,
    }
}

/// The service a request goes to.
pub open spec fn mapping_of(r: RequestType) -> Seq<char> {
    match r {
        RequestType::Results => "submits"@,
        RequestType::SubmitDetails(_) => "submits"@,
        RequestType::Login(_, _) => "privileges"@,
    }
}

/// What fills the `k`-th placeholder: the `k`-th argument, or the placeholder itself
/// once the arguments have run out.
pub open spec fn gap(args: Seq<Seq<char>>, k: int) -> Seq<char> {
    if 0 <= k < args.len() {
        args[k]
    } else {
        seq!['{', '}']
    }
}

/// The pieces joined, the gap after the `k`-th piece filled by `gap(args, k)`.
pub open spec fn interleave(pieces: Seq<Seq<char>>, args: Seq<Seq<char>>) -> Seq<char>
    decreases pieces.len(),
{
    if pieces.len() == 0 {
        Seq::<char>::empty()
    } else if pieces.len() == 1 {
        pieces[0]
    } else {
        interleave(pieces.drop_last(), args) + gap(args, pieces.len() - 2) + pieces.last()
    }
}

/// `template` with its `{}` placeholders filled by `args`, in order.
pub open spec fn filled(template: Seq<char>, args: Seq<Seq<char>>) -> Seq<char> {
    interleave(split_on_pair(template, '{', '}'), args)
}

/// What fills a request's placeholders: the module base, then, for a login, the login
/// and the password.
pub open spec fn payload_args(r: RequestType, module_base: Seq<char>) -> Seq<Seq<char>> {
    match r {
        RequestType::Login(login, password) => seq![module_base, login@, password@],
        _ => seq![module_base],
    }
}

/// `template` with its `{}` placeholders filled by `args`, in order.
pub fn fill_placeholders(template: &str, args: &[String]) -> (r: String)
    ensures
        r@ == filled(template@, views(args@)),
{
    let chars = chars_of(template);
    let pieces = split_pair(chars.as_slice(), '{', '}');
    let ghost ps = bufs(pieces@);
    let ghost av = views(args@);
    proof {
        crate::text::lemma_split_on_pair_nonempty(template@, '{', '}');
    }
    let mut out: Vec<char> = pieces[0].clone();
    assert(ps.take(1).drop_last() =~= Seq::<Seq<char>>::empty());
    assert(out@ == interleave(ps.take(1), av));
    let mut i: usize = 1;
    while i < pieces.len()
        invariant
            1 <= i <= pieces.len(),
            ps == bufs(pieces@),
            av == views(args@),
            out@ == interleave(ps.take(i as int), av),
        decreases pieces.len() - i,
    {
        let ghost before = out@;
        if i - 1 < args.len() {
            let a = chars_of(args[i - 1].as_str());
            out.extend_from_slice(a.as_slice());
        } else {
            out.push('{');
            out.push('}');
        }
        out.extend_from_slice(pieces[i].as_slice());
        proof {
            assert(ps.take(i + 1).drop_last() =~= ps.take(i as int));
            assert(ps.take(i + 1).last() == pieces@[i as int]@);
            if i - 1 < args.len() {
                assert(av[i - 1] == args@[i - 1]@);
            }
            assert(out@ =~= before + gap(av, i - 1) + ps.take(i + 1).last());
        }
        i += 1;
    }
    assert(ps.take(pieces.len() as int) =~= ps);
    string_of(out.as_slice())
}

impl RequestType {
    /// The RPC payload of this request for the module at `module_base`.
    pub fn payload(&self, module_base: &str) -> (r: String)
        ensures
            r@ == filled(payload_template_of(*self), payload_args(*self, module_base@)),
    {
        let template = self.payload_template();
        let mut args: Vec<String> = Vec::new();
        args.push(module_base.to_owned());
        match self {
            RequestType::Login(login, password) => {
                args.push(login.clone());
                args.push(password.clone());
            },
            _ => {},
        }
        assert(views(args@) =~= payload_args(*self, module_base@));
        fill_placeholders(template.as_str(), args.as_slice())
    }

    /// The RPC payload of this request, with `{}` placeholders.
    pub fn payload_template(&self) -> (r: String)
        ensures
            r@ == payload_template_of(*self),
    {
        match self {
            RequestType::Results => "7|0|5|{}|03D93DB883748ED9135F6A4744CFFA07|testerka.gwt.client.submits.SubmitsService|getAllSubmits|Z|1|2|3|4|1|5|1|".to_owned(),
            RequestType::SubmitDetails(id) => {
                let a = concat(
                    "7|0|5|{}|03D93DB883748ED9135F6A4744CFFA07|testerka.gwt.client.submits.SubmitsService|getSubmitDetails|I|1|2|3|4|1|5|",
                    id.as_str(),
                );
                concat(a.as_str(), "|")
            },
            RequestType::Login(_, _) => "7|0|7|{}|620F3CE7784C04B839FC8E10C6C4A753|testerka.gwt.client.acess.PrivilegesService|login|java.lang.String/2004016611|{}|{}|1|2|3|4|2|5|5|6|7|".to_owned(),
        }
    }

    /// The service this request goes to.
    pub fn mapping(&self) -> (r: String)
        ensures
            r@ == mapping_of(*self),
    {
        match self {
            RequestType::Results => "submits".to_owned(),
            RequestType::SubmitDetails(_) => "submits".to_owned(),
            RequestType::Login(_, _) => "privileges".to_owned(),
        }
    }
}

} // verus!
