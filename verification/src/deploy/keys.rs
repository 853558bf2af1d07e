//! SSH keys generated for unattended provisioning: where they live, how
//! they are generated and which keys an agent lists.

use vstd::prelude::*;
use vstd::string::StringExecFns;
use crate::text::{concat2, concat3, join, join_path, lines, split_lines};

verus! {

/// A generated key pair.
#[derive(Debug, Clone)]
pub struct SshKeyPair {
    /// Private key text.
    pub private_key: String,
    /// Public key text, as injected into VMs.
    pub public_key: String,
    /// Path of the private key file.
    pub private_key_path: String,
    /// Path of the public key file.
    pub public_key_path: String,
}

/// Where generated keys are kept.
#[derive(Debug, Clone)]
pub struct SshKeyManager {
    temp_dir: String,
}

/// The private key file for `identifier` in `dir`.
pub open spec fn private_key_file(dir: Seq<char>, identifier: Seq<char>) -> Seq<char> {
    join_path(dir, "id_ed25519_"@ + identifier)
}

/// The public key file for `identifier` in `dir`.
pub open spec fn public_key_file(dir: Seq<char>, identifier: Seq<char>) -> Seq<char> {
    join_path(dir, "id_ed25519_"@ + identifier + ".pub"@)
}

/// The arguments of `ssh-keygen` that create an ed25519 key without a
/// passphrase at `private_path`, commented with the identifier.
pub open spec fn keygen_arguments(private_path: Seq<char>, identifier: Seq<char>) -> Seq<Seq<char>> {
    seq![
        "-t"@,
        "ed25519"@,
        "-f"@,
        private_path,
        "-N"@,
        ""@,
        "-C"@,
        "ionChannel-autonomous-"@ + identifier,
    ]
}

impl SshKeyManager {
    /// The directory that holds the keys.
    pub closed spec fn dir(&self) -> Seq<char> {
        self.temp_dir@
    }

    /// A manager keeping its keys in `ionChannel-ssh-keys` under the
    /// temporary directory `temp_root`.
    pub fn in_temp_dir(temp_root: &str) -> (r: SshKeyManager)
        ensures
            r.dir() == join_path(temp_root@, "ionChannel-ssh-keys"@),
    {
        SshKeyManager { temp_dir: join(temp_root, "ionChannel-ssh-keys") }
    }

    /// The directory that holds the keys.
    pub fn key_dir(&self) -> (r: &str)
        ensures
            r@ == self.dir(),
    {
        self.temp_dir.as_str()
    }

    /// The private key file for `identifier`.
    pub fn private_key_path(&self, identifier: &str) -> (r: String)
        ensures
            r@ == private_key_file(self.dir(), identifier@),
    {
        let name = concat2("id_ed25519_", identifier);
        join(self.temp_dir.as_str(), name.as_str())
    }

    /// The public key file for `identifier`.
    pub fn public_key_path(&self, identifier: &str) -> (r: String)
        ensures
            r@ == public_key_file(self.dir(), identifier@),
    {
        let name = concat3("id_ed25519_", identifier, ".pub");
        join(self.temp_dir.as_str(), name.as_str())
    }

    /// The `ssh-keygen` arguments that generate the pair for `identifier`.
    pub fn keygen_args(&self, identifier: &str) -> (r: Vec<String>)
        ensures
            r@.map_values(|a: String| a@) == keygen_arguments(
                private_key_file(self.dir(), identifier@),
                identifier@,
            ),
    {
        let private_path = self.private_key_path(identifier);
        let mut v: Vec<String> = Vec::new();
        v.push(String::from_str("-t"));
        v.push(String::from_str("ed25519"));
        v.push(String::from_str("-f"));
        v.push(private_path);
        v.push(String::from_str("-N"));
        v.push(String::from_str(""));
        v.push(String::from_str("-C"));
        v.push(concat2("ionChannel-autonomous-", identifier));
        assert(v@.map_values(|a: String| a@) =~= keygen_arguments(
            private_key_file(self.dir(), identifier@),
            identifier@,
        ));
        v
    }
}

/// The lines of `ls` that are not empty, in order.
pub open spec fn non_empty(ls: Seq<Seq<char>>) -> Seq<Seq<char>>
    decreases ls.len(),
{
    if ls.len() == 0 {
        ls
    } else if ls.last().len() > 0 {
        non_empty(ls.drop_last()).push(ls.last())
    } else {
        non_empty(ls.drop_last())
    }
}

/// The keys an SSH agent lists in the output of `ssh-add -L`: its
/// non-empty lines.
pub fn agent_keys_from_output(output: &str) -> (r: Vec<String>)
    ensures
        r@.map_values(|k: String| k@) == non_empty(lines(output@)),
{
    let all = split_lines(output);
    let ghost ls = all@.map_values(|l: String| l@);
    let mut keys: Vec<String> = Vec::new();
    let mut i: usize = 0;
    assert(ls.take(0) =~= Seq::<Seq<char>>::empty());
    assert(keys@.map_values(|k: String| k@) =~= Seq::<Seq<char>>::empty());
    while i < all.len()
        invariant
            ls == all@.map_values(|l: String| l@),
            i <= all@.len(),
            keys@.map_values(|k: String| k@) == non_empty(ls.take(i as int)),
        decreases all@.len() - i,
    {
        assert(ls.take(i + 1).drop_last() =~= ls.take(i as int));
        if all[i].as_str().unicode_len() > 0 {
            let ghost before = keys@;
            keys.push(all[i].clone());
            assert(keys@.map_values(|k: String| k@) =~= before.map_values(|k: String| k@).push(
                ls[i as int],
            ));
        }
        i = i + 1;
    }
    assert(ls.take(all@.len() as int) =~= ls);
    keys
}

} // verus!
