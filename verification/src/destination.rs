//! Where a channel's records go: one file per channel and session, named
//! after both.

use crate::clock::Timestamp;
use vstd::prelude::*;
use vstd::string::StringExecFns;

verus! {

/// The name of the file for the channel `service` in the session that
/// started at the instant printed as `time`.
pub open spec fn file_path_text(service: Seq<char>, time: Seq<char>) -> Seq<char> {
    seq!['.', '/'] + time + seq!['-'] + service + seq!['.', 'j', 's', 'o', 'n']
}

/// Within one session, two channels share a file only if they are the same
/// channel.
pub proof fn lemma_channels_never_collide(first: Seq<char>, second: Seq<char>, time: Seq<char>)
    requires
        file_path_text(first, time) == file_path_text(second, time),
    ensures
        first == second,
{
    let head = seq!['.', '/'] + time + seq!['-'];
    let tail = seq!['.', 'j', 's', 'o', 'n'];
    let one = file_path_text(first, time);
    let other = file_path_text(second, time);
    assert(one.len() == head.len() + first.len() + tail.len());
    assert(other.len() == head.len() + second.len() + tail.len());
    assert(first.len() == second.len());
    assert forall|i: int| 0 <= i < first.len() implies first[i] == second[i] by {
        assert(one[head.len() + i] == first[i]);
        assert(other[head.len() + i] == second[i]);
    }
    assert(first =~= second);
}

/// Builds the file name from the channel's name and the printed time.
pub fn file_path_from(service: &str, time: &str) -> (path: String)
    ensures
        path@ == file_path_text(service@, time@),
{
    let mut path = String::from_str("./");
    path.append(time);
    path.append("-");
    path.append(service);
    path.append(".json");
    proof {
        reveal_strlit("./");
        reveal_strlit("-");
        reveal_strlit(".json");
        assert("./"@ =~= seq!['.', '/']);
        assert("-"@ =~= seq!['-']);
        assert(".json"@ =~= seq!['.', 'j', 's', 'o', 'n']);
    }
    path
}

/// The file for the channel `service` in the session that started at
/// `time`.
pub fn get_file_path(service: &str, time: Timestamp) -> (path: String)
    ensures
        path@ == file_path_text(service@, time.text()),
{
    let text = time.to_text();
    file_path_from(service, text.as_str())
}

} // verus!
