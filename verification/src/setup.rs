use vstd::prelude::*;

use crate::codec::{b64_decode_of, b64_encode_of, decode, encode};
use crate::engine::{
    create_server_setup_bytes, parses_server_setup, server_public_key_bytes, server_public_key_of,
};
use crate::errors::{is_b64_err, is_protocol_err, Context, Error};

verus! {

/// Generates and serializes fresh long-term server key material: the static
/// keypair and the OPRF seed. Pure generation, drawing fresh randomness on
/// every call; cannot fail.
pub fn opaque_create_server_setup() -> (r: String)
    ensures
        (b64_decode_of(r@) matches Some(b) && parses_server_setup(b)),
{
    let setup = create_server_setup_bytes();
    encode(&setup)
}

/// Decodes a server setup and returns only the re-encoded public half of its
/// keypair: the one supported way to expose the server identity without
/// exposing the private setup.
pub fn opaque_get_server_public_key(data: String) -> (r: Result<String, Error>)
    ensures
        ({
            let d = b64_decode_of(data@);
            &&& (d is None <==> is_b64_err(r, Context::ServerSetup))
            &&& ((d matches Some(b) && !parses_server_setup(b)) <==> is_protocol_err(
                r,
                Context::DeserializeServerSetup,
            ))
            &&& (d matches Some(b) ==> (parses_server_setup(b) ==> (r matches Ok(pk) && pk@
                == b64_encode_of(server_public_key_of(b)))))
            &&& (r is Ok ==> (d matches Some(b) && parses_server_setup(b)))
        }),
{
    let setup_bytes = match decode(data.as_str(), Context::ServerSetup) {
        Ok(v) => v,
        Err(e) => {
            return Err(e);
        },
    };
    match server_public_key_bytes(setup_bytes.as_slice()) {
        Ok(pk) => Ok(encode(&pk)),
        Err(message) => Err(
            Error::Protocol { context: Context::DeserializeServerSetup, message },
        ),
    }
}

} // verus!
