//! What holds of the headers of a response, and of what is read of ignored pull requests.

use crate::github::discovery;
use crate::github::response;
use crate::json::JsonView;
use crate::text;
use vstd::prelude::*;

verus! {

broadcast use vstd::seq_lib::group_seq_properties;

// ---------------------------------------------------------------- responses

/// A text is parted at its first colon.
proof fn colons_part(name: Seq<char>, value: Seq<char>)
    requires
        !name.contains(':'),
    ensures
        text::split_once_at(name + ":"@ + value, ":"@) == Some((name, value)),
{
    reveal_strlit(":");
    let t = name + ":"@ + value;
    let at = name.len() as int;
    assert(t.subrange(at, at + 1) =~= ":"@);
    assert(text::occurs_at(t, ":"@, at));
    assert forall|i: int| 0 <= i < at implies !text::occurs_at(t, ":"@, i) by {
        if text::occurs_at(t, ":"@, i) {
            assert(t.subrange(i, i + 1)[0] == t[i]);
            assert(name[i] == ':');
        }
    }
    assert(text::first_at(t, ":"@, at));
    let i = text::first_index(t, ":"@).unwrap();
    assert(text::first_at(t, ":"@, i));
    assert(i == at);
    assert(t.take(at) =~= name);
    assert(t.skip(at + 1) =~= value);
}

/// A header has the value behind the first colon of its line, without the white space around it,
/// and its name in lower case. The last one of a name counts, and the others stay.
pub proof fn headers_are_read_by_name(lines: Seq<Seq<char>>, name: Seq<char>, value: Seq<char>, other: Seq<char>)
    requires
        !name.contains(':'),
        other != text::ascii_lowercase(text::trimmed(name)),
    ensures
        ({
            let before = response::headers_of(lines);
            let after = response::headers_of(lines.push(name + ":"@ + value));
            let key = text::ascii_lowercase(text::trimmed(name));
            &&& after.contains_key(key)
            &&& after[key] == text::trimmed(value)
            &&& after.contains_key(other) == before.contains_key(other)
            &&& before.contains_key(other) ==> after[other] == before[other]
        }),
{
    colons_part(name, value);
    let all = lines.push(name + ":"@ + value);
    assert(all.drop_last() =~= lines);
}

/// The words of a text stand at the start of the words of a longer one.
proof fn first_words_stay(t: Seq<char>, rest: Seq<char>)
    ensures
        response::words_of(t + seq![' '] + rest).len() >= response::words_of(t).len(),
        forall|i: int|
            0 <= i < response::words_of(t).len() ==> response::words_of(t + seq![' '] + rest)[i] == #[trigger] response::words_of(t)[i],
    decreases rest.len(),
{
    let all = t + seq![' '] + rest;
    if rest.len() == 0 {
        assert(all.last() == ' ');
        assert(all.drop_last() =~= t);
    } else {
        let shorter = rest.drop_last();
        first_words_stay(t, shorter);
        let before = t + seq![' '] + shorter;
        assert(all.drop_last() =~= before);
        assert(all.last() == rest.last());
        if !text::is_space(all.last()) {
            if all.len() > 1 && !text::is_space(all[all.len() - 2]) && response::words_of(before).len() > 0 {
                assert(shorter.len() > 0);
                new_words_come_behind(t, shorter);
            }
        }
    }
}

/// What stands behind a space and is not one makes a new word.
proof fn new_words_come_behind(t: Seq<char>, rest: Seq<char>)
    requires
        rest.len() > 0,
        !text::is_space(rest.last()),
    ensures
        response::words_of(t + seq![' '] + rest).len() > response::words_of(t).len(),
    decreases rest.len(),
{
    let all = t + seq![' '] + rest;
    let shorter = rest.drop_last();
    let before = t + seq![' '] + shorter;
    assert(all.drop_last() =~= before);
    assert(all.last() == rest.last());
    if shorter.len() == 0 {
        assert(all[all.len() - 2] == ' ');
        assert(before.drop_last() =~= t);
        assert(before.last() == ' ');
    } else if text::is_space(shorter.last()) {
        assert(all[all.len() - 2] == shorter.last());
        first_words_stay(t, shorter);
    } else {
        new_words_come_behind(t, shorter);
    }
}

/// What has no white space is one word, behind those before.
proof fn words_stand_alone(t: Seq<char>, word: Seq<char>)
    requires
        word.len() > 0,
        forall|i: int| 0 <= i < word.len() ==> !text::is_space(#[trigger] word[i]),
    ensures
        response::words_of(t + seq![' '] + word) == response::words_of(t).push(word),
    decreases word.len(),
{
    let all = t + seq![' '] + word;
    let shorter = word.drop_last();
    let before = t + seq![' '] + shorter;
    assert(all.drop_last() =~= before);
    assert(all.last() == word.last());
    assert(!text::is_space(word[word.len() - 1]));
    if shorter.len() == 0 {
        assert(all[all.len() - 2] == ' ');
        assert(before.drop_last() =~= t);
        assert(before.last() == ' ');
        assert(response::words_of(before) == response::words_of(t));
        assert(response::words_of(all) == response::words_of(before).push(seq![all.last()]));
        assert(word =~= seq![all.last()]);
    } else {
        assert forall|i: int| 0 <= i < shorter.len() implies !text::is_space(#[trigger] shorter[i]) by {
            assert(shorter[i] == word[i]);
        }
        words_stand_alone(t, shorter);
        assert(all[all.len() - 2] == shorter.last());
        assert(!text::is_space(shorter[shorter.len() - 1]));
        let words = response::words_of(before);
        assert(words.last() == shorter);
        assert(shorter.push(word.last()) =~= word);
        assert(response::words_of(all) =~= response::words_of(t).push(word));
    }
}

/// The status is the number that the second word of the first line gives.
pub proof fn the_second_word_is_the_status(protocol: Seq<char>, number: Seq<char>, rest: Seq<char>)
    requires
        protocol.len() > 0,
        number.len() > 0,
        forall|i: int| 0 <= i < protocol.len() ==> !text::is_space(#[trigger] protocol[i]),
        forall|i: int| 0 <= i < number.len() ==> !text::is_space(#[trigger] number[i]),
    ensures
        ({
            let status = response::status_of(protocol + seq![' '] + number + seq![' '] + rest);
            let given = text::number_of(number);
            &&& given is Some && given->0 <= 65_535 ==> status == Some(given->0 as u16)
            &&& given is None || given->0 > 65_535 ==> status is None
        }),
{
    one_word(protocol);
    let two = protocol + seq![' '] + number;
    words_stand_alone(protocol, number);
    assert(response::words_of(two) == seq![protocol].push(number));
    first_words_stay(two, rest);
    assert(response::words_of(two)[1] == number);
    assert(response::words_of(two + seq![' '] + rest)[1] == number);
}

/// A text without white space is one word.
proof fn one_word(word: Seq<char>)
    requires
        word.len() > 0,
        forall|i: int| 0 <= i < word.len() ==> !text::is_space(#[trigger] word[i]),
    ensures
        response::words_of(word) == seq![word],
    decreases word.len(),
{
    let shorter = word.drop_last();
    assert(!text::is_space(word[word.len() - 1]));
    if shorter.len() == 0 {
        assert(word =~= seq![word.last()]);
        assert(response::words_of(shorter).len() == 0);
        assert(response::words_of(word) =~= seq![word]);
    } else {
        assert forall|i: int| 0 <= i < shorter.len() implies !text::is_space(#[trigger] shorter[i]) by {
            assert(shorter[i] == word[i]);
        }
        one_word(shorter);
        assert(!text::is_space(word[word.len() - 2]));
        assert(shorter.push(word.last()) =~= word);
        assert(response::words_of(word) =~= seq![word]);
    }
}

/// What stands behind the headers of a response is its body, and its status is the one that its
/// first line gives, where the body does not start with headers of its own.
pub proof fn bodies_stand_behind_the_headers(block: Seq<u8>, body: Seq<u8>)
    requires
        seq![72u8, 84u8, 84u8, 80u8, 47u8].is_prefix_of(block),
        vstd::utf8::valid_utf8(block),
        text::lines_of(vstd::utf8::decode_utf8(block)).len() > 0,
        response::status_of(text::lines_of(vstd::utf8::decode_utf8(block))[0]) is Some,
        !seq![72u8, 84u8, 84u8, 80u8, 47u8].is_prefix_of(body),
        forall|i: int|
            0 <= i < block.len() ==> !response::bytes_at(
                block + seq![13u8, 10u8, 13u8, 10u8] + body,
                seq![13u8, 10u8, 13u8, 10u8],
                i,
            ),
    ensures
        ({
            let read = response::response_of(block + seq![13u8, 10u8, 13u8, 10u8] + body);
            let lines = text::lines_of(vstd::utf8::decode_utf8(block));
            &&& read is Ok
            &&& read->Ok_0.body == body
            &&& Some(read->Ok_0.status) == response::status_of(lines[0])
            &&& read->Ok_0.headers == response::headers_of(lines.drop_first())
        }),
{
    let end = seq![13u8, 10u8, 13u8, 10u8];
    let start = seq![72u8, 84u8, 84u8, 80u8, 47u8];
    let bytes = block + end + body;
    let at = block.len() as int;
    assert(bytes.subrange(at, at + 4) =~= end);
    assert(response::bytes_at(bytes, end, at));
    assert(response::bytes_first_at(bytes, end, at));
    let i = response::bytes_index(bytes, end).unwrap();
    assert(response::bytes_first_at(bytes, end, i));
    assert(i == at);
    assert(bytes.take(at) =~= block);
    assert(bytes.skip(at + 4) =~= body);
    assert(response::block_start() == start);
    assert(bytes.subrange(0, 5) =~= block.subrange(0, 5));
    assert(start.is_prefix_of(bytes));
    reveal_with_fuel(response::read_blocks, 3);
}

// ---------------------------------------------------------------- ignored pull requests

/// What is read of an ignored pull request is what its node says, where that is complete, was asked
/// for, and names a state that is known: open, closed or merged.
pub proof fn ignored_nodes_are_read(node: JsonView, ids: Seq<Seq<char>>)
    ensures
        ({
            let read = discovery::ignored_of(node, ids);
            let state = node.at("state"@).str();
            &&& read is Ok <==> {
                &&& node.at("id"@).str() is Some
                &&& ids.contains(node.at("id"@).str()->0)
                &&& node.at("repository"@).at("nameWithOwner"@).str() is Some
                &&& node.at("number"@).whole() is Some
                &&& node.at("title"@).str() is Some
                &&& node.at("url"@).str() is Some
                &&& state == Some("OPEN"@) || state == Some("CLOSED"@) || state == Some("MERGED"@)
            }
            &&& read is Ok ==> {
                let snapshot = read->Ok_0;
                &&& snapshot.id == node.at("id"@).str()->0
                &&& snapshot.repo == node.at("repository"@).at("nameWithOwner"@).str()->0
                &&& snapshot.number == node.at("number"@).whole()->0
                &&& snapshot.title == node.at("title"@).str()->0
                &&& snapshot.url == node.at("url"@).str()->0
                &&& snapshot.open <==> state == Some("OPEN"@)
                &&& snapshot.draft <==> node.at("isDraft"@).truth() == Some(true)
                &&& snapshot.head_branch == node.at("headRefName"@).str()
                &&& snapshot.base_branch == node.at("baseRefName"@).str()
                &&& snapshot.reviews.len() == 0 && snapshot.threads.len() == 0
            }
        }),
{
    reveal_strlit("OPEN");
    reveal_strlit("CLOSED");
    reveal_strlit("MERGED");
    assert("OPEN"@.len() == 4 && "CLOSED"@.len() == 6 && "MERGED"@.len() == 6);
}

/// Every node that is there is read, and one fault refuses them all; what is not available is left
/// out.
pub proof fn every_ignored_node_is_read(nodes: Seq<JsonView>, ids: Seq<Seq<char>>, i: int)
    requires
        0 <= i < nodes.len(),
        !(nodes[i] is Null),
    ensures
        discovery::ignored_of(nodes[i], ids) is Err ==> discovery::ignored_list(nodes, ids) is Err,
        discovery::ignored_list(nodes, ids) matches Ok(list) ==> list.contains(discovery::ignored_of(nodes[i], ids)->Ok_0),
    decreases nodes.len(),
{
    let rest = nodes.drop_last();
    if i < rest.len() {
        assert(rest[i] == nodes[i]);
        every_ignored_node_is_read(rest, ids, i);
        if let Ok(list) = discovery::ignored_list(nodes, ids) {
            let before = discovery::ignored_list(rest, ids)->Ok_0;
            let snapshot = discovery::ignored_of(nodes[i], ids)->Ok_0;
            let k = choose|k: int| 0 <= k < before.len() && before[k] == snapshot;
            assert(list[k] == snapshot);
        }
    } else if let Ok(list) = discovery::ignored_list(nodes, ids) {
        assert(list[list.len() - 1] == discovery::ignored_of(nodes[i], ids)->Ok_0);
    }
}

/// An answer with errors is refused, unless they only name what is not available.
pub proof fn faulty_lookups_are_refused(answer: JsonView, ids: Seq<Seq<char>>)
    ensures
        answer.find("errors"@) is Some && answer.at("errors"@).list() is None ==> discovery::ignored_answer(answer, ids) is Err,
        answer.at("data"@).at("nodes"@).list() is None ==> discovery::ignored_answer(answer, ids) is Err,
        answer.find("errors"@) is None && answer.at("data"@).at("nodes"@).list() is Some ==> discovery::ignored_answer(answer, ids)
            == discovery::ignored_list(answer.at("data"@).at("nodes"@).list()->0, ids),
{
}

} // verus!
