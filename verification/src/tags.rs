use std::collections::BTreeMap;

use vstd::prelude::*;

use crate::error::CleanError;
use crate::text::{is_trim_of, trim_whitespace};

verus! {

/// What `serde_json::from_slice` makes of `json` read as a `Vec<BTreeMap<String, Value>>`:
/// the keys of each object, or, where it refuses the input, the text of its error.
pub uninterp spec fn json_object_keys(json: Seq<u8>) -> Result<Seq<Seq<Seq<char>>>, Seq<char>>;

/// No object has a key twice.
pub open spec fn keys_distinct(records: Seq<Seq<Seq<char>>>) -> bool {
    forall|r: int, i: int, j: int|
        0 <= r < records.len() && 0 <= i < j < records[r].len() ==> #[trigger] records[r][i]
            != #[trigger] records[r][j]
}

/// `serde_json::from_slice::<Vec<BTreeMap<String, Value>>>`, handing out the keys of each
/// object in the map's order, or the text (`Display`) of the error it returns. The keys are
/// those of a `BTreeMap`, so none comes twice.
#[verifier::external_body]
fn parse_object_keys(json: &[u8]) -> (res: Result<Vec<Vec<String>>, String>)
    ensures
        res is Ok <==> json_object_keys(json@) is Ok,
        res matches Ok(records) ==> (json_object_keys(json@) matches Ok(keys) && keys
            == records.deep_view() && keys_distinct(keys)),
        res matches Err(text) ==> (json_object_keys(json@) matches Err(error_text) && error_text
            == text@),
{
    match serde_json::from_slice::<Vec<BTreeMap<String, serde_json::Value>>>(json) {
        Ok(records) => Ok(records.into_iter().map(|record| record.into_keys().collect()).collect()),
        Err(error) => Err(error.to_string()),
    }
}

/// Keys that are not counted as metadata: they describe the file, not the photo.
pub open spec fn is_ignored_key(key: Seq<char>) -> bool {
    key == "SourceFile"@ || key == "ImageSize"@ || key == "Megapixels"@
}

/// The keys of a record that count as metadata.
pub open spec fn counted_keys(keys: Seq<Seq<char>>) -> Seq<Seq<char>> {
    keys.filter(|key: Seq<char>| !is_ignored_key(key))
}

/// The tag count of ExifTool's records: the counted keys of the first record, 0 when
/// there is none.
pub open spec fn tag_count(records: Seq<Seq<Seq<char>>>) -> nat {
    if records.len() == 0 {
        0
    } else {
        counted_keys(records[0]).len()
    }
}

/// What the count is: 0 without a record, whatever the later records hold only the first
/// record counts, and in it every key counts once except `SourceFile`, `ImageSize` and
/// `Megapixels`, which never count.
pub proof fn lemma_what_counts(keys: Seq<Seq<char>>, key: Seq<char>, later: Seq<Seq<Seq<char>>>)
    ensures
        tag_count(Seq::empty()) == 0,
        tag_count(seq![Seq::<Seq<char>>::empty()]) == 0,
        tag_count(seq![keys] + later) == tag_count(seq![keys]),
        tag_count(seq![keys.push(key)]) == tag_count(seq![keys]) + if key == "SourceFile"@ || key
            == "ImageSize"@ || key == "Megapixels"@ {
            0int
        } else {
            1int
        },
{
    reveal_with_fuel(Seq::filter, 1);
    assert((seq![keys] + later)[0] == keys);
    assert(keys.push(key).drop_last() =~= keys);
    assert(Seq::<Seq<char>>::empty().filter(|key: Seq<char>| !is_ignored_key(key)) =~= Seq::<
        Seq<char>,
    >::empty());
}

/// Leaving out the file keys drops at most those three keys: the count is at most the
/// number of keys of the first record, and, its keys being distinct, at least that
/// number less three.
pub proof fn lemma_tag_count_bounds(records: Seq<Seq<Seq<char>>>)
    requires
        records.len() > 0,
        keys_distinct(records),
    ensures
        tag_count(records) <= records[0].len(),
        records[0].len() <= tag_count(records) + 3,
{
    let keys = records[0];
    let left_out = keys.filter(|key: Seq<char>| is_ignored_key(key));
    lemma_filter_partition(keys);
    assert(keys.no_duplicates()) by {
        assert forall|i: int, j: int| 0 <= i < keys.len() && 0 <= j < keys.len() && i != j implies keys[i]
            != keys[j] by {
            if i < j {
                assert(records[0][i] != records[0][j]);
            } else {
                assert(records[0][j] != records[0][i]);
            }
        }
    }
    lemma_filter_no_duplicates(keys, |key: Seq<char>| is_ignored_key(key));
    left_out.unique_seq_to_set();
    let file_keys = set!["SourceFile"@, "ImageSize"@, "Megapixels"@];
    assert forall|key: Seq<char>| left_out.to_set().contains(key) implies file_keys.contains(key) by {
        let i = choose|i: int| 0 <= i < left_out.len() && left_out[i] == key;
        keys.lemma_filter_pred(|key: Seq<char>| is_ignored_key(key), i);
    }
    vstd::set_lib::lemma_len_subset(left_out.to_set(), file_keys);
    assert(file_keys.len() <= 3) by {
        assert(set!["SourceFile"@].len() == 1);
    }
}

/// The keys left out and the keys counted together are all the keys.
proof fn lemma_filter_partition(keys: Seq<Seq<char>>)
    ensures
        keys.filter(|key: Seq<char>| is_ignored_key(key)).len() + counted_keys(keys).len()
            == keys.len(),
    decreases keys.len(),
{
    reveal_with_fuel(Seq::filter, 1);
    if keys.len() > 0 {
        lemma_filter_partition(keys.drop_last());
    }
}

/// Filtering a sequence without duplicates leaves none.
proof fn lemma_filter_no_duplicates(keys: Seq<Seq<char>>, keep: spec_fn(Seq<char>) -> bool)
    requires
        keys.no_duplicates(),
    ensures
        keys.filter(keep).no_duplicates(),
    decreases keys.len(),
{
    reveal_with_fuel(Seq::filter, 1);
    if keys.len() > 0 {
        let rest = keys.drop_last();
        assert(rest.no_duplicates());
        lemma_filter_no_duplicates(rest, keep);
        if keep(keys.last()) {
            assert forall|i: int| 0 <= i < rest.filter(keep).len() implies rest.filter(keep)[i]
                != keys.last() by {
                assert(rest.filter(keep).contains(rest.filter(keep)[i]));
                rest.lemma_filter_contains_rev(keep, rest.filter(keep)[i]);
                let j = choose|j: int| 0 <= j < rest.len() && rest[j] == rest.filter(keep)[i];
                assert(keys[j] == rest[j]);
                assert(keys[keys.len() - 1] == keys.last());
            }
        }
    }
}

/// Whether `key` is one of the keys that are not counted.
pub fn is_ignored_count_key(key: &String) -> (ignored: bool)
    ensures
        ignored == is_ignored_key(key@),
{
    let source_file = "SourceFile".to_owned();
    let image_size = "ImageSize".to_owned();
    let megapixels = "Megapixels".to_owned();
    key.eq(&source_file) || key.eq(&image_size) || key.eq(&megapixels)
}

/// Counts the tags of parsed ExifTool output: the keys of the first record, leaving out
/// `SourceFile`, `ImageSize` and `Megapixels`; 0 when there is no record.
pub fn count_tags_in_records(records: &Vec<Vec<String>>) -> (count: usize)
    ensures
        count == tag_count(records.deep_view()),
{
    if records.len() == 0 {
        return 0;
    }
    let keys = &records[0];
    let ghost key_views = records.deep_view()[0];
    assert(key_views == keys.deep_view());
    let mut count: usize = 0;
    let mut i: usize = 0;
    while i < keys.len()
        invariant
            i <= keys.len(),
            key_views == keys.deep_view(),
            count == counted_keys(key_views.take(i as int)).len(),
            count <= i,
        decreases keys.len() - i,
    {
        let ignored = is_ignored_count_key(&keys[i]);
        proof {
            reveal_with_fuel(Seq::filter, 1);
            assert(key_views.take(i + 1).drop_last() =~= key_views.take(i as int));
            assert(key_views.take(i + 1).last() == keys[i as int]@);
        }
        if !ignored {
            count = count + 1;
        }
        i = i + 1;
    }
    assert(key_views.take(i as int) =~= key_views);
    count
}

/// Turns the outcome of ExifTool's tag listing into a tag count: when ExifTool failed,
/// the error carries what it printed on stderr, trimmed; otherwise its JSON output is
/// read and counted as `count_tags_in_records` counts.
pub fn count_tags_exiftool(succeeded: bool, stdout: &[u8], stderr: &str) -> (res: Result<
    usize,
    CleanError,
>)
    ensures
        !succeeded ==> (res matches Err(CleanError::ReadFailed { stderr: shown }) && is_trim_of(
            shown@,
            stderr@,
        )),
        succeeded ==> (json_object_keys(stdout@) matches Err(text) ==> (res matches Err(
            CleanError::BadJson { cause },
        ) && cause@ == text)),
        succeeded ==> (json_object_keys(stdout@) matches Ok(records) ==> res == Ok::<
            usize,
            CleanError,
        >(tag_count(records) as usize)),
{
    if !succeeded {
        return Err(CleanError::ReadFailed { stderr: trim_whitespace(stderr).to_owned() });
    }
    match parse_object_keys(stdout) {
        Ok(records) => Ok(count_tags_in_records(&records)),
        Err(cause) => Err(CleanError::BadJson { cause }),
    }
}

/// Turns the outcome of ExifTool's metadata removal into a result: an error carrying
/// what ExifTool printed on stderr, trimmed, when it failed.
pub fn strip_metadata_exiftool(succeeded: bool, stderr: &str) -> (res: Result<(), CleanError>)
    ensures
        succeeded <==> res is Ok,
        !succeeded ==> (res matches Err(CleanError::CleanFailed { stderr: shown }) && is_trim_of(
            shown@,
            stderr@,
        )),
{
    if succeeded {
        Ok(())
    } else {
        Err(CleanError::CleanFailed { stderr: trim_whitespace(stderr).to_owned() })
    }
}

/// The arguments, before the file's path, with which ExifTool lists a file's tags: every
/// tag but the file-system ones and ExifTool's version, as JSON with short tag names, file
/// names read as UTF-8.
pub fn count_tags_arguments() -> (args: Vec<&'static str>)
    ensures
        args@.map_values(|arg: &str| arg@) == seq![
            "--File:all"@,
            "--ExifToolVersion"@,
            "-json"@,
            "-s"@,
            "-charset"@,
            "filename=UTF8"@,
        ],
{
    let args = vec!["--File:all", "--ExifToolVersion", "-json", "-s", "-charset", "filename=UTF8"];
    assert(args@.map_values(|arg: &str| arg@) =~= seq![
        "--File:all"@,
        "--ExifToolVersion"@,
        "-json"@,
        "-s"@,
        "-charset"@,
        "filename=UTF8"@,
    ]);
    args
}

/// The arguments, before the file's path, with which ExifTool removes all metadata from a
/// file in place, keeping its modification date (`-P`), file names read as UTF-8.
pub fn strip_metadata_arguments() -> (args: Vec<&'static str>)
    ensures
        args@.map_values(|arg: &str| arg@) == seq![
            "-all="@,
            "-overwrite_original"@,
            "-charset"@,
            "filename=UTF8"@,
            "-P"@,
        ],
{
    let args = vec!["-all=", "-overwrite_original", "-charset", "filename=UTF8", "-P"];
    assert(args@.map_values(|arg: &str| arg@) =~= seq![
        "-all="@,
        "-overwrite_original"@,
        "-charset"@,
        "filename=UTF8"@,
        "-P"@,
    ]);
    args
}

} // verus!
