//! The on-disk layout: `<root>/<bucket>/<filename>`.

use vstd::prelude::*;
use crate::decimal::{decimal, decimal_value, is_digit, lemma_decimal_digits, lemma_decimal_value};

verus! {

/// The bucket of a hash among `num_bucket` buckets.
pub open spec fn bucket_of(hash: u64, num_bucket: u64) -> nat
    recommends
        num_bucket >= 1,
{
    (hash % num_bucket) as nat
}

/// The directory of a bucket: the root, a slash, the bucket's numeral.
pub open spec fn bucket_dir_of(root: Seq<char>, bucket: nat) -> Seq<char> {
    root + seq!['/'] + decimal(bucket)
}

/// The file of a key: its bucket's directory, a slash, the key's file name.
pub open spec fn data_path_of(root: Seq<char>, bucket: nat, filename: Seq<char>) -> Seq<char> {
    bucket_dir_of(root, bucket) + seq!['/'] + filename
}

/// The characters of `s` from position `start` up to the next slash, or to
/// the end where no slash follows: one component of a path.
pub open spec fn component_at(s: Seq<char>, start: int) -> Seq<char>
    decreases s.len() - start,
{
    if 0 <= start < s.len() && s[start] != '/' {
        seq![s[start]] + component_at(s, start + 1)
    } else {
        Seq::empty()
    }
}

/// A bucket is one of the numbers below the bucket count.
pub proof fn lemma_bucket_in_range(hash: u64, num_bucket: u64)
    requires
        num_bucket >= 1,
    ensures
        bucket_of(hash, num_bucket) < num_bucket,
{
}

/// A stretch without a slash that is closed by a slash is read back whole as
/// the component at its start.
pub proof fn lemma_component_between(before: Seq<char>, body: Seq<char>, after: Seq<char>)
    requires
        forall|i: int| 0 <= i < body.len() ==> body[i] != '/',
    ensures
        component_at(before + body + seq!['/'] + after, before.len() as int) == body,
    decreases body.len(),
{
    let s = before + body + seq!['/'] + after;
    let start = before.len() as int;
    if body.len() == 0 {
        assert(s[start] == '/');
        assert(component_at(s, start) =~= body);
    } else {
        assert(s[start] == body[0]);
        let longer = before.push(body[0]);
        let rest = body.skip(1);
        assert(longer + rest + seq!['/'] + after =~= s);
        lemma_component_between(longer, rest, after);
        assert(component_at(s, start) =~= body);
    }
}

/// The component of a key's path that follows the root is the numeral of the
/// key's bucket, and reads back as that bucket.
pub proof fn lemma_bucket_component(root: Seq<char>, bucket: nat, filename: Seq<char>)
    ensures
        component_at(data_path_of(root, bucket, filename), root.len() as int + 1) == decimal(
            bucket,
        ),
        decimal_value(component_at(data_path_of(root, bucket, filename), root.len() as int + 1))
            == bucket,
{
    lemma_decimal_digits(bucket);
    lemma_decimal_value(bucket);
    let numeral = decimal(bucket);
    assert forall|i: int| 0 <= i < numeral.len() implies numeral[i] != '/' by {
        assert(is_digit(numeral[i]));
    }
    let before = root + seq!['/'];
    assert(before + numeral + seq!['/'] + filename =~= data_path_of(root, bucket, filename));
    lemma_component_between(before, numeral, filename);
}

/// Two buckets under one root have the same directory only if they are the
/// same bucket.
pub proof fn lemma_bucket_dirs_differ(root: Seq<char>, a: nat, b: nat)
    ensures
        bucket_dir_of(root, a) == bucket_dir_of(root, b) <==> a == b,
{
    if bucket_dir_of(root, a) == bucket_dir_of(root, b) {
        let before = root + seq!['/'];
        assert((before + decimal(a)).skip(before.len() as int) =~= decimal(a));
        assert((before + decimal(b)).skip(before.len() as int) =~= decimal(b));
        lemma_decimal_value(a);
        lemma_decimal_value(b);
    }
}

/// Under one root, two paths are the same file only if bucket and file name
/// are the same: keys that differ in either never share a file.
pub proof fn lemma_data_paths_differ(
    root: Seq<char>,
    a: nat,
    name_a: Seq<char>,
    b: nat,
    name_b: Seq<char>,
)
    ensures
        data_path_of(root, a, name_a) == data_path_of(root, b, name_b) <==> a == b && name_a
            == name_b,
{
    if data_path_of(root, a, name_a) == data_path_of(root, b, name_b) {
        lemma_bucket_component(root, a, name_a);
        lemma_bucket_component(root, b, name_b);
        assert(a == b);
        let before = bucket_dir_of(root, a) + seq!['/'];
        assert((before + name_a).skip(before.len() as int) =~= name_a);
        assert((before + name_b).skip(before.len() as int) =~= name_b);
    }
}

} // verus!
