//! C strings as the caller hands them over.
//!
//! A `const char *` argument is an `Option<Vec<u8>>`: `None` for NULL, else the
//! bytes in front of the terminating NUL.

use vstd::prelude::*;
use vstd::utf8::*;

use crate::error;
use crate::error::{Error, ErrorView, LanceErrorCode};

verus! {

/// The bytes of a C string argument; `None` for NULL.
pub open spec fn c_bytes(ptr: Option<Vec<u8>>) -> Option<Seq<u8>> {
    match ptr {
        None => None,
        Some(bytes) => Some(bytes@),
    }
}

/// The text of a C string argument: none for NULL, an error where the bytes are
/// not UTF-8.
pub open spec fn c_text(ptr: Option<Seq<u8>>) -> Result<Option<Seq<char>>, ErrorView> {
    match ptr {
        None => Ok(None),
        Some(bytes) => if valid_utf8(bytes) {
            Ok(Some(decode_utf8(bytes)))
        } else {
            Err(error::invalid_input("string is not valid UTF-8"@))
        },
    }
}

/// Whether a C string is there, in UTF-8, and not empty.
pub open spec fn usable_text(ptr: Option<Seq<u8>>) -> bool {
    ptr matches Some(bytes) && valid_utf8(bytes) && bytes.len() > 0
}

/// `std::str::Utf8Error`, the error of `std::str::from_utf8`.
#[verifier::external_type_specification]
#[verifier::external_body]
pub struct ExUtf8Error(std::str::Utf8Error);

/// `std::str::from_utf8` accepts exactly the byte sequences that are UTF-8, and
/// the text that it returns is encoded by these very bytes.
pub assume_specification[ std::str::from_utf8 ](v: &[u8]) -> (result: Result<
    &str,
    std::str::Utf8Error,
>)
    ensures
        result is Ok <==> valid_utf8(v@),
        result matches Ok(s) ==> encode_utf8(s@) == v@,
;

/// Whether `bytes` are UTF-8.
pub fn is_utf8(bytes: &Vec<u8>) -> (valid: bool)
    ensures
        valid == valid_utf8(bytes@),
{
    std::str::from_utf8(bytes.as_slice()).is_ok()
}

/// Reads a C string argument: `None` for NULL, the text otherwise, an error
/// where the bytes are not UTF-8.
pub fn parse_c_string(ptr: &Option<Vec<u8>>) -> (result: Result<Option<String>, Error>)
    ensures
        error::outcome(result) == c_text(c_bytes(*ptr)),
        result is Ok <==> (ptr is None || valid_utf8(ptr->0@)),
        result matches Ok(text) ==> (text is Some <==> ptr is Some),
        result matches Ok(Some(text)) ==> encode_utf8(text@) == ptr->0@,
        result matches Err(error) ==> error.code == LanceErrorCode::InvalidArgument,
{
    match ptr {
        None => Ok(None),
        Some(bytes) => match std::str::from_utf8(bytes.as_slice()) {
            Ok(text) => {
                proof {
                    encode_utf8_decode_utf8(text@);
                }
                Ok(Some(text.to_owned()))
            },
            Err(_) => Err(Error::invalid_input("string is not valid UTF-8".to_owned())),
        },
    }
}

/// What `read` makes of each entry with its index, in order; where it fails for
/// some entry, the error of the first such entry.
pub open spec fn read_all<A, B>(
    entries: Seq<A>,
    read: spec_fn(A, nat) -> Result<B, ErrorView>,
) -> Result<Seq<B>, ErrorView>
    decreases entries.len(),
{
    if entries.len() == 0 {
        Ok(seq![])
    } else {
        match read_all(entries.drop_last(), read) {
            Err(error) => Err(error),
            Ok(done) => match read(entries.last(), (entries.len() - 1) as nat) {
                Err(error) => Err(error),
                Ok(value) => Ok(done.push(value)),
            },
        }
    }
}

/// Reading an array succeeds exactly when every entry can be read, and then keeps
/// the entries' number and order.
pub proof fn law_read_all_succeeds_iff<A, B>(
    entries: Seq<A>,
    read: spec_fn(A, nat) -> Result<B, ErrorView>,
)
    ensures
        read_all(entries, read) is Ok <==> forall|i: int|
            0 <= i < entries.len() ==> (#[trigger] read(entries[i], i as nat)) is Ok,
        read_all(entries, read) matches Ok(values) ==> {
            &&& values.len() == entries.len()
            &&& forall|i: int|
                0 <= i < entries.len() ==> read(entries[i], i as nat) == Ok::<B, ErrorView>(
                    #[trigger] values[i],
                )
        },
    decreases entries.len(),
{
    if entries.len() > 0 {
        let front = entries.drop_last();
        law_read_all_succeeds_iff(front, read);
        assert forall|i: int| 0 <= i < front.len() implies front[i] == entries[i] by {}
        assert forall|i: int| 0 <= i < front.len() && read(entries[i], i as nat) is Ok implies (
        #[trigger] read(front[i], i as nat)) is Ok by {}
        if read_all(entries, read) is Err && read_all(front, read) is Err {
            let i = choose|i: int|
                0 <= i < front.len() && (#[trigger] read(front[i], i as nat)) is Err;
            assert(read(entries[i], i as nat) is Err);
        }
        if read_all(entries, read) is Ok {
            assert forall|i: int| 0 <= i < entries.len() implies (#[trigger] read(
                entries[i],
                i as nat,
            )) is Ok by {
                if i < front.len() {
                    assert(read(front[i], i as nat) is Ok);
                }
            }
        }
    }
}

/// Where reading an array fails, the error is the one of the first entry that
/// cannot be read.
pub proof fn law_read_all_reports_the_first_error<A, B>(
    entries: Seq<A>,
    read: spec_fn(A, nat) -> Result<B, ErrorView>,
    first: int,
)
    requires
        0 <= first < entries.len(),
        read(entries[first], first as nat) is Err,
        forall|i: int| 0 <= i < first ==> (#[trigger] read(entries[i], i as nat)) is Ok,
    ensures
        read_all(entries, read) matches Err(error) && read(entries[first], first as nat) == Err::<
            B,
            ErrorView,
        >(error),
    decreases entries.len(),
{
    let front = entries.drop_last();
    if first < front.len() {
        assert(front[first] == entries[first]);
        assert forall|i: int| 0 <= i < first implies (#[trigger] read(front[i], i as nat)) is Ok by {
            assert(read(entries[i], i as nat) is Ok);
        }
        law_read_all_reports_the_first_error(front, read, first);
    } else {
        law_read_all_succeeds_iff(front, read);
        assert forall|i: int| 0 <= i < front.len() implies (#[trigger] read(front[i], i as nat)) is Ok by {
            assert(read(entries[i], i as nat) is Ok);
        }
    }
}

/// An error among the first `n` entries is the error of the whole array.
pub proof fn lemma_read_all_prefix_error<A, B>(
    entries: Seq<A>,
    read: spec_fn(A, nat) -> Result<B, ErrorView>,
    n: int,
)
    requires
        0 <= n <= entries.len(),
        read_all(entries.take(n), read) is Err,
    ensures
        read_all(entries, read) == read_all(entries.take(n), read),
    decreases entries.len(),
{
    if n == entries.len() {
        assert(entries.take(n) =~= entries);
    } else {
        let front = entries.drop_last();
        assert(front.take(n) =~= entries.take(n));
        lemma_read_all_prefix_error(front, read, n);
    }
}

/// Reading one entry more.
pub proof fn lemma_read_all_step<A, B>(
    entries: Seq<A>,
    read: spec_fn(A, nat) -> Result<B, ErrorView>,
    n: int,
)
    requires
        0 <= n < entries.len(),
        read_all(entries.take(n), read) is Ok,
    ensures
        read_all(entries.take(n + 1), read) == match read(entries[n], n as nat) {
            Ok(value) => Ok::<Seq<B>, ErrorView>(read_all(entries.take(n), read)->Ok_0.push(value)),
            Err(error) => Err(error),
        },
{
    assert(entries.take(n + 1).drop_last() =~= entries.take(n));
}

/// A C string argument is read as it stands: NULL is no text, UTF-8 is the text that is
/// encoded by these very bytes, and anything else is refused.
pub proof fn law_c_strings_are_read_as_they_stand(arg: Option<Vec<u8>>, ptr: Option<Seq<u8>>)
    ensures
        arg is None ==> c_bytes(arg) is None,
        arg matches Some(bytes) ==> c_bytes(arg) == Some(bytes@),
        ptr is None ==> c_text(ptr) == Ok::<Option<Seq<char>>, ErrorView>(None),
        ptr matches Some(bytes) ==> valid_utf8(bytes) ==> {
            &&& c_text(ptr) is Ok
            &&& c_text(ptr)->Ok_0 is Some
            &&& encode_utf8(c_text(ptr)->Ok_0->0) == bytes
            &&& c_text(ptr)->Ok_0->0.len() == 0 <==> bytes.len() == 0
        },
        ptr matches Some(bytes) ==> !valid_utf8(bytes) ==> error::refused(
            c_text(ptr),
            "string is not valid UTF-8"@,
        ),
        usable_text(ptr) <==> ptr is Some && valid_utf8(ptr->0) && ptr->0.len() > 0,
{
    if let Some(bytes) = ptr {
        if valid_utf8(bytes) {
            decode_utf8_encode_utf8(bytes);
        }
    }
}

} // verus!
