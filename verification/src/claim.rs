use vstd::prelude::*;

verus! {

/// The claim set a caller signs into the bearer token it hands to
/// [`crate::NFTStorage::new`]. The library never inspects the token;
/// this type only fixes the shape and the default values of the claims.
#[derive(Debug)]
pub struct JWTClaim {
    pub sub: String,
    pub iss: String,
    pub iat: i64,
    pub name: String,
}

impl Default for JWTClaim {
    /// The documented default claim set.
    fn default() -> (r: Self)
        ensures
            r.sub@ == "did:ethr:0x39c221E391b43034847677f2eFe7584F536f389a"@,
            r.iss@ == "nft-storage"@,
            r.iat == 1629229027112i64,
            r.name@ == "My NFT App"@,
    {
        JWTClaim {
            sub: "did:ethr:0x39c221E391b43034847677f2eFe7584F536f389a".to_owned(),
            iss: "nft-storage".to_owned(),
            iat: 1629229027112,
            name: "My NFT App".to_owned(),
        }
    }
}

} // verus!
