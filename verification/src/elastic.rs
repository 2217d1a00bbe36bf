use vstd::prelude::*;

verus! {

/// Connection settings for the document store: where it listens and the
/// credentials to present.
#[derive(Debug)]
pub struct ElasticConfig {
    pub host: String,
    pub username: String,
    pub password: String,
}

/// The total-hits summary a search response carries.
#[derive(Debug, PartialEq, Eq)]
pub struct Total {
    pub value: u32,
    pub relation: String,
}

/// The acknowledgement the document store returns for a single index request:
/// the index written to, the identifier assigned to the document, and the
/// store's own result word.
#[derive(Debug, PartialEq, Eq)]
pub struct ElasticIndexResponse {
    pub index: String,
    pub id: String,
    pub result: String,
}

impl Clone for ElasticConfig {
    fn clone(&self) -> (res: Self)
        ensures
            res == *self,
    {
        ElasticConfig {
            host: self.host.clone(),
            username: self.username.clone(),
            password: self.password.clone(),
        }
    }
}

impl Clone for Total {
    fn clone(&self) -> (res: Self)
        ensures
            res == *self,
    {
        Total { value: self.value, relation: self.relation.clone() }
    }
}

impl Clone for ElasticIndexResponse {
    fn clone(&self) -> (res: Self)
        ensures
            res == *self,
    {
        ElasticIndexResponse {
            index: self.index.clone(),
            id: self.id.clone(),
            result: self.result.clone(),
        }
    }
}

impl ElasticConfig {
    /// Connection settings copied from the given pieces, none altered.
    pub fn new(host: &str, username: &str, password: &str) -> (c: ElasticConfig)
        ensures
            c.host@ == host@,
            c.username@ == username@,
            c.password@ == password@,
    {
        ElasticConfig {
            host: String::from_str(host),
            username: String::from_str(username),
            password: String::from_str(password),
        }
    }
}

} // verus!
