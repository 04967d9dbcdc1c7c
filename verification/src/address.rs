//! The choice of an address.
use crate::error::ClientError;
use vstd::prelude::*;

verus! {

/// The address to connect to: the first of those that the host name has.
pub fn first_address<T>(addresses: Vec<T>) -> (address: Result<T, ClientError>)
    ensures
        addresses@.len() == 0 ==> address matches Err(ClientError::AddressNotFound),
        addresses@.len() > 0 ==> address == Ok::<T, ClientError>(addresses@[0]),
{
    let mut addresses = addresses;
    if addresses.len() == 0 {
        Err(ClientError::AddressNotFound)
    } else {
        Ok(addresses.remove(0))
    }
}

} // verus!
