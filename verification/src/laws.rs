//! The router's laws: properties of the whole routing tree, proved from
//! the specifications in the routing and static modules.

use vstd::prelude::*;
use crate::handlers::WAIT_DELAY_SECONDS;
use crate::handlers::hello_body;
use crate::handlers::wait_body;
use crate::handlers::path_echo_body;
use crate::routing::Method;
use crate::routing::Step;
use crate::routing::step_ok;
use crate::routing::group_not_found;
use crate::routing::in_healthcheck_group;
use crate::routing::in_other_group;
use crate::routing::is_hello;
use crate::routing::is_wait;
use crate::routing::is_json;
use crate::routing::in_path_echo;
use crate::statics::reserved_path;
use crate::statics::probe_target;
use crate::text::is_prefix_of;
use crate::text::lemma_prefix_trans;
use crate::text::strip_slashes;

verus! {

proof fn lemma_prefix_char(a: Seq<char>, p: Seq<char>, i: int)
    requires
        is_prefix_of(a, p),
        0 <= i < a.len(),
    ensures
        p[i] == a[i],
{
    assert(p.subrange(0, a.len() as int)[i] == a[i]);
}

/// Both route groups lie inside the reserved management namespace.
pub proof fn lemma_groups_reserved(p: Seq<char>)
    ensures
        in_healthcheck_group(p) ==> reserved_path(p),
        in_other_group(p) ==> reserved_path(p),
{
    reveal_strlit("/service/");
    reveal_strlit("/service/healthcheck");
    reveal_strlit("/service/healthcheck/");
    reveal_strlit("/service/manage/other");
    reveal_strlit("/service/manage/other/");
    if in_healthcheck_group(p) {
        if p == "/service/healthcheck"@ {
            assert(p.subrange(0, 9) =~= "/service/"@);
        } else {
            assert(is_prefix_of("/service/"@, "/service/healthcheck/"@)) by {
                assert("/service/healthcheck/"@.subrange(0, 9) =~= "/service/"@);
            }
            lemma_prefix_trans("/service/"@, "/service/healthcheck/"@, p);
        }
    }
    if in_other_group(p) {
        if p == "/service/manage/other"@ {
            assert(p.subrange(0, 9) =~= "/service/"@);
        } else {
            assert(is_prefix_of("/service/"@, "/service/manage/other/"@)) by {
                assert("/service/manage/other/"@.subrange(0, 9) =~= "/service/"@);
            }
            lemma_prefix_trans("/service/"@, "/service/manage/other/"@, p);
        }
    }
}

proof fn lemma_other_member(p: Seq<char>)
    requires
        is_hello(p) || is_wait(p) || is_json(p) || in_path_echo(p),
    ensures
        in_other_group(p),
        !in_healthcheck_group(p),
{
    reveal_strlit("/service/healthcheck");
    reveal_strlit("/service/healthcheck/");
    reveal_strlit("/service/manage/other/");
    reveal_strlit("/service/manage/other/hello");
    reveal_strlit("/service/manage/other/wait");
    reveal_strlit("/service/manage/other/json");
    reveal_strlit("/service/manage/other/path");
    reveal_strlit("/service/manage/other/path/");
    if is_hello(p) {
        assert(p.subrange(0, 22) =~= "/service/manage/other/"@);
    } else if is_wait(p) {
        assert(p.subrange(0, 22) =~= "/service/manage/other/"@);
    } else if is_json(p) {
        assert(p.subrange(0, 22) =~= "/service/manage/other/"@);
    } else if p == "/service/manage/other/path"@ {
        assert(p.subrange(0, 22) =~= "/service/manage/other/"@);
    } else {
        assert(is_prefix_of("/service/manage/other/"@, "/service/manage/other/path/"@)) by {
            assert("/service/manage/other/path/"@.subrange(0, 22) =~= "/service/manage/other/"@);
        }
        lemma_prefix_trans("/service/manage/other/"@, "/service/manage/other/path/"@, p);
    }
    assert(is_prefix_of("/service/manage/other/"@, p));
    lemma_prefix_char("/service/manage/other/"@, p, 9);
    assert(p[9] == 'm');
    if in_healthcheck_group(p) {
        if p == "/service/healthcheck"@ {
            assert(p[9] == 'h');
            assert(false);
        } else {
            lemma_prefix_char("/service/healthcheck/"@, p, 9);
            assert(p[9] == 'h');
            assert(false);
        }
    }
}

/// Every defined route answers its exact-method, exact-path request with
/// the documented step: the health check replies 200 "Success", hello and
/// wait their fixed JSON payloads, the JSON echo under POST asks for the
/// body, and the path echo reports the raw request path.
pub proof fn lemma_defined_routes(m: Method, p: Seq<char>, debug: bool, s: Step)
    requires
        step_ok(m, p, debug, s),
    ensures
        p == "/service/healthcheck"@ ==> (s matches Step::Reply(r) && r.status == 200 && r.body@
            == "Success"@),
        is_hello(p) ==> (s matches Step::Reply(r) && r.status == 200 && r.body@ == hello_body()),
        is_wait(p) ==> (s matches Step::DelayedReply(d, r) && d == WAIT_DELAY_SECONDS && r.status
            == 200 && r.body@ == wait_body()),
        is_json(p) && m == Method::Post ==> s == Step::NeedsJsonBody,
        in_path_echo(p) ==> (s matches Step::Reply(r) && r.status == 200 && r.body@
            == path_echo_body(p)),
{
    reveal_strlit("/service/manage/other/hello");
    reveal_strlit("/service/manage/other/wait");
    reveal_strlit("/service/manage/other/json");
    reveal_strlit("/service/manage/other/path");
    reveal_strlit("/service/manage/other/path/");
    if is_hello(p) || is_wait(p) || is_json(p) || in_path_echo(p) {
        lemma_other_member(p);
        if is_json(p) {
            assert(p[22] == 'j');
            assert(!is_hello(p));
            assert(!is_wait(p));
        }
        if in_path_echo(p) {
            if p == "/service/manage/other/path"@ {
                assert(p[22] == 'p');
            } else {
                lemma_prefix_char("/service/manage/other/path/"@, p, 22);
                assert(p[22] == 'p');
            }
            assert(!is_hello(p));
            assert(!is_wait(p));
            assert(!is_json(p));
        }
    }
}

/// Within the reserved management namespace, a request that matches no
/// defined sub-route is answered 404 with an empty body. The step is a
/// finished reply, so the filesystem is never consulted, whatever it
/// holds under a same-named directory.
pub proof fn lemma_reserved_unmatched(m: Method, p: Seq<char>, debug: bool, s: Step)
    requires
        step_ok(m, p, debug, s),
        reserved_path(p),
        p != "/service/healthcheck"@,
        !is_hello(p),
        !is_wait(p),
        !in_path_echo(p),
        !(is_json(p) && m == Method::Post),
    ensures
        group_not_found(s),
{
}

/// Directory normalization: outside the reserved namespace, a path
/// without a trailing slash is resolved by probing the content root for a
/// directory of that name (`resolve_dir_probe` then either redirects to
/// the path with "/" appended, or passes the request to the file server).
pub proof fn lemma_directory_normalization(m: Method, p: Seq<char>, debug: bool, s: Step)
    requires
        step_ok(m, p, debug, s),
        !reserved_path(p),
        p.len() == 0 || p[p.len() - 1] != '/',
    ensures
        s matches Step::ProbeDir(t) && t@ == "public_html/"@ + strip_slashes(p),
{
    lemma_groups_reserved(p);
    assert(probe_target(p) == "public_html/"@ + strip_slashes(p));
}

/// Outside the reserved namespace, the router itself never answers: the
/// step always continues into the static chain (a directory probe or the
/// file server), whose not-found reply is the final fallback.
pub proof fn lemma_static_fallthrough(m: Method, p: Seq<char>, debug: bool, s: Step)
    requires
        step_ok(m, p, debug, s),
        !reserved_path(p),
    ensures
        (s matches Step::ProbeDir(_)) || s == Step::Serve,
{
    lemma_groups_reserved(p);
}

} // verus!
