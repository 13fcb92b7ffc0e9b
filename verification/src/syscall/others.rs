//! Key types of `add_key`: which ones the kernel knows and how large a
//! payload each takes.
use vstd::prelude::*;
use crate::errno::{Errno, SysResult};

verus! {

/// Largest payload of a `user` or `logon` key.
pub const USER_KEY_PAYLOAD_MAX: usize = 32767;

/// Largest payload of a `big_key` key.
pub const BIG_KEY_PAYLOAD_MAX: usize = 0xf_ffff;

/// Whether `add_key` reads a payload for a key of type `keytype` with a
/// payload of `size` bytes: not for a keyring, which takes none, yes for
/// `user` and `logon` keys up to 32767 bytes, for `big_key` keys below 1 MiB,
/// and for `asymmetric`, `cifs.idmap`, `cifs.spnego`, `pkcs7_test`, `rxrpc`
/// and `rxrpc_s` keys of any size. `EINVAL` for a payload that is too large
/// and for any other type.
pub fn add_key_payload(keytype: &String, size: usize) -> (r: SysResult<bool>)
    ensures
        keytype@ == "keyring"@ ==> r == if size != 0 { Err::<bool, Errno>(Errno::EINVAL) } else { Ok(false) },
        keytype@ == "user"@ || keytype@ == "logon"@ ==> r == if size > USER_KEY_PAYLOAD_MAX {
            Err::<bool, Errno>(Errno::EINVAL)
        } else {
            Ok(true)
        },
        keytype@ == "big_key"@ ==> r == if size > BIG_KEY_PAYLOAD_MAX { Err::<bool, Errno>(Errno::EINVAL) } else { Ok(true) },
        keytype@ == "asymmetric"@ || keytype@ == "cifs.idmap"@ || keytype@ == "cifs.spnego"@
            || keytype@ == "pkcs7_test"@ || keytype@ == "rxrpc"@ || keytype@ == "rxrpc_s"@ ==> r == Ok::<bool, Errno>(true),
        !(keytype@ == "keyring"@ || keytype@ == "user"@ || keytype@ == "logon"@ || keytype@ == "big_key"@
            || keytype@ == "asymmetric"@ || keytype@ == "cifs.idmap"@ || keytype@ == "cifs.spnego"@
            || keytype@ == "pkcs7_test"@ || keytype@ == "rxrpc"@ || keytype@ == "rxrpc_s"@)
            ==> r == Err::<bool, Errno>(Errno::EINVAL),
{
    proof {
        reveal_strlit("keyring");
        reveal_strlit("user");
        reveal_strlit("logon");
        reveal_strlit("big_key");
        reveal_strlit("asymmetric");
        reveal_strlit("cifs.idmap");
        reveal_strlit("cifs.spnego");
        reveal_strlit("pkcs7_test");
        reveal_strlit("rxrpc");
        reveal_strlit("rxrpc_s");
        assert("keyring"@.len() == 7 && "keyring"@[0] == 'k');
        assert("user"@.len() == 4 && "user"@[0] == 'u');
        assert("logon"@.len() == 5 && "logon"@[0] == 'l');
        assert("big_key"@.len() == 7 && "big_key"@[0] == 'b');
        assert("asymmetric"@.len() == 10 && "asymmetric"@[0] == 'a');
        assert("cifs.idmap"@.len() == 10 && "cifs.idmap"@[0] == 'c');
        assert("cifs.spnego"@.len() == 11 && "cifs.spnego"@[0] == 'c');
        assert("pkcs7_test"@.len() == 10 && "pkcs7_test"@[0] == 'p');
        assert("rxrpc"@.len() == 5 && "rxrpc"@[0] == 'r');
        assert("rxrpc_s"@.len() == 7 && "rxrpc_s"@[0] == 'r');
    }
    if *keytype == String::from_str("keyring") {
        if size != 0 {
            return Err(Errno::EINVAL);
        }
        return Ok(false);
    }
    if *keytype == String::from_str("user") || *keytype == String::from_str("logon") {
        if size > USER_KEY_PAYLOAD_MAX {
            return Err(Errno::EINVAL);
        }
        return Ok(true);
    }
    if *keytype == String::from_str("big_key") {
        if size > BIG_KEY_PAYLOAD_MAX {
            return Err(Errno::EINVAL);
        }
        return Ok(true);
    }
    if *keytype == String::from_str("asymmetric") || *keytype == String::from_str("cifs.idmap")
        || *keytype == String::from_str("cifs.spnego") || *keytype == String::from_str("pkcs7_test")
        || *keytype == String::from_str("rxrpc") || *keytype == String::from_str("rxrpc_s") {
        return Ok(true);
    }
    Err(Errno::EINVAL)
}

} // verus!
