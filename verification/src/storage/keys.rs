use vstd::prelude::*;

verus! {

#[verifier::external_type_specification]
#[verifier::external_body]
pub struct ExKey(esp_nvs::Key);

/// The 16 bytes a key holds, as `esp_nvs::Key::as_bytes` returns them.
pub uninterp spec fn key_bytes(key: esp_nvs::Key) -> Seq<u8>;

/// `name` followed by zero bytes up to the 16 bytes of an NVS key.
pub open spec fn padded_key(name: Seq<u8>) -> Seq<u8> {
    name + Seq::new((16 - name.len()) as nat, |i: int| 0u8)
}

/// Whether `name` can name an NVS key: at most 15 bytes, all ASCII and none zero.
pub open spec fn valid_key_name(name: Seq<u8>) -> bool {
    &&& name.len() <= 15
    &&& forall|i: int| 0 <= i < name.len() ==> 0 < #[trigger] name[i] < 128
}

/// Calls `esp_nvs::Key::from_slice`, which panics unless the name is at most 15 ASCII
/// bytes with no zero among them, and otherwise copies the name into a 16-byte key
/// padded with zeros.
#[verifier::external_body]
fn key_from_slice(name: &[u8]) -> (key: esp_nvs::Key)
    requires
        valid_key_name(name@),
    ensures
        key_bytes(key) == padded_key(name@),
{
    esp_nvs::Key::from_slice(name)
}

/// Name of the namespace the log lives in: "log".
pub open spec fn namespace_name() -> Seq<u8> {
    seq![108u8, 111u8, 103u8]
}

/// Name of the key that holds the number of stored events: "cnt".
pub open spec fn count_key_name() -> Seq<u8> {
    seq![99u8, 110u8, 116u8]
}

/// Name of the key that holds the kind of event `idx`: 'e', two digits, 'k'.
pub open spec fn kind_key_name(idx: int) -> Seq<u8> {
    seq![101u8, (48 + (idx / 10) % 256) as u8, (48 + idx % 10) as u8, 107u8]
}

/// Name of the key that holds the timestamp of event `idx`: 'e', two digits, 't'.
pub open spec fn ts_key_name(idx: int) -> Seq<u8> {
    seq![101u8, (48 + (idx / 10) % 256) as u8, (48 + idx % 10) as u8, 116u8]
}

/// The event index gives the digits of its key names only while its tens fit in the ASCII range.
pub open spec fn valid_event_index(idx: int) -> bool {
    (idx / 10) % 256 < 80
}

/// The namespace key of the log.
pub fn log_namespace() -> (key: esp_nvs::Key)
    ensures
        key_bytes(key) == padded_key(namespace_name()),
{
    let name: [u8; 3] = [108u8, 111u8, 103u8];
    assert(name@ == namespace_name());
    key_from_slice(name.as_slice())
}

/// The key of the stored event count.
pub fn count_key() -> (key: esp_nvs::Key)
    ensures
        key_bytes(key) == padded_key(count_key_name()),
{
    let name: [u8; 3] = [99u8, 110u8, 116u8];
    assert(name@ == count_key_name());
    key_from_slice(name.as_slice())
}

/// Builds the four bytes 'e', tens digit, units digit, `suffix`.
fn indexed_name(idx: usize, suffix: u8) -> (name: [u8; 4])
    requires
        valid_event_index(idx as int),
    ensures
        name@ == seq![101u8, (48 + (idx / 10) % 256) as u8, (48 + idx % 10) as u8, suffix],
{
    let tens: usize = (idx / 10) % 256;
    let units: usize = idx % 10;
    [101u8, 48u8 + tens as u8, 48u8 + units as u8, suffix]
}

/// The key of the kind of event `idx`.
pub fn event_kind_key(idx: usize) -> (key: esp_nvs::Key)
    requires
        valid_event_index(idx as int),
    ensures
        key_bytes(key) == padded_key(kind_key_name(idx as int)),
{
    let name = indexed_name(idx, 107u8);
    key_from_slice(name.as_slice())
}

/// The key of the timestamp of event `idx`.
pub fn event_ts_key(idx: usize) -> (key: esp_nvs::Key)
    requires
        valid_event_index(idx as int),
    ensures
        key_bytes(key) == padded_key(ts_key_name(idx as int)),
{
    let name = indexed_name(idx, 116u8);
    key_from_slice(name.as_slice())
}

/// The count key and the keys of events 0 to 99 are all different.
pub proof fn lemma_key_names_distinct(i: int, j: int)
    requires
        0 <= i < 100,
        0 <= j < 100,
    ensures
        kind_key_name(i) != ts_key_name(j),
        kind_key_name(i) != count_key_name(),
        ts_key_name(i) != count_key_name(),
        i != j ==> kind_key_name(i) != kind_key_name(j),
        i != j ==> ts_key_name(i) != ts_key_name(j),
{
    assert(kind_key_name(i)[3] != ts_key_name(j)[3]);
    assert(kind_key_name(i).len() != count_key_name().len());
    assert(ts_key_name(i).len() != count_key_name().len());
    if i != j {
        assert(i / 10 != j / 10 || i % 10 != j % 10);
        if i / 10 != j / 10 {
            assert(kind_key_name(i)[1] != kind_key_name(j)[1]);
            assert(ts_key_name(i)[1] != ts_key_name(j)[1]);
        } else {
            assert(kind_key_name(i)[2] != kind_key_name(j)[2]);
            assert(ts_key_name(i)[2] != ts_key_name(j)[2]);
        }
    }
}

} // verus!
