use vstd::prelude::*;
use vstd::string::*;

verus! {

/// A capability: an action that may be taken on a kind of resource.
pub struct Permission {
    pub action: String,
    pub resource: String,
}

/// `i` is the position of the one and only `:` in `s`.
pub open spec fn sole_colon(s: Seq<char>, i: int) -> bool {
    &&& 0 <= i < s.len()
    &&& s[i] == ':'
    &&& forall|j: int| 0 <= j < s.len() && j != i ==> s[j] != ':'
}

/// The text form `action:resource` of a permission.
pub open spec fn permission_text(action: Seq<char>, resource: Seq<char>) -> Seq<char> {
    action + seq![':'] + resource
}

impl Permission {
    pub fn new(action: &str, resource: &str) -> (r: Self)
        ensures
            r.action@ == action@,
            r.resource@ == resource@,
    {
        Permission { action: String::from_str(action), resource: String::from_str(resource) }
    }

    /// Parses `action:resource`; a text with no colon or with several is refused.
    pub fn from_string(permission_str: &str) -> (r: Option<Self>)
        ensures
            match r {
                Some(p) => exists|i: int|
                    sole_colon(permission_str@, i) && p.action@ == permission_str@.subrange(0, i)
                        && p.resource@ == permission_str@.subrange(i + 1, permission_str@.len() as int),
                None => forall|i: int| !sole_colon(permission_str@, i),
            },
    {
        let n = permission_str.unicode_len();
        let mut found: Option<usize> = None;
        let mut many = false;
        let mut k: usize = 0;
        while k < n
            invariant
                n == permission_str@.len(),
                k <= n,
                !many ==> match found {
                    Some(c) => c < k && permission_str@[c as int] == ':' && forall|j: int|
                        0 <= j < k && j != c ==> permission_str@[j] != ':',
                    None => forall|j: int| 0 <= j < k ==> permission_str@[j] != ':',
                },
                many ==> forall|i: int| !sole_colon(permission_str@, i),
            decreases n - k,
        {
            if permission_str.get_char(k) == ':' {
                match found {
                    Some(c) => {
                        assert forall|i: int| !sole_colon(permission_str@, i) by {
                            if sole_colon(permission_str@, i) {
                                if i != c as int {
                                    assert(permission_str@[c as int] == ':');
                                } else {
                                    assert(permission_str@[k as int] == ':');
                                }
                            }
                        }
                        many = true;
                    },
                    None => {
                        found = Some(k);
                    },
                }
            }
            k = k + 1;
        }
        if many {
            return None;
        }
        match found {
            Some(c) => {
                assert(sole_colon(permission_str@, c as int));
                let action = permission_str.substring_char(0, c);
                let resource = permission_str.substring_char(c + 1, n);
                Some(Permission::new(action, resource))
            },
            None => None,
        }
    }

    /// The text form `action:resource`.
    pub fn to_string(&self) -> (r: String)
        ensures
            r@ == permission_text(self.action@, self.resource@),
    {
        let colon = ":";
        proof {
            reveal_strlit(":");
        }
        let head = self.action.clone().concat(colon);
        head.concat(self.resource.as_str())
    }
}

/// What a verified bearer token says of its holder.
pub struct Claims {
    pub sub: String,
    pub company: String,
    pub exp: usize,
    pub permissions: Vec<Permission>,
}

/// `perms` grants exactly the pair `(action, resource)`.
pub open spec fn grants(perms: Seq<Permission>, action: Seq<char>, resource: Seq<char>) -> bool {
    exists|i: int| 0 <= i < perms.len() && perms[i].action@ == action && perms[i].resource@ == resource
}

/// `perms` grants at least one of the listed pairs.
pub open spec fn grants_any(perms: Seq<Permission>, wanted: Seq<(String, String)>) -> bool {
    exists|k: int| 0 <= k < wanted.len() && grants(perms, wanted[k].0@, wanted[k].1@)
}

/// The claims of an authenticated caller.
pub struct BearerAuthorization(pub Claims);

impl BearerAuthorization {
    pub open spec fn may(&self, action: Seq<char>, resource: Seq<char>) -> bool {
        grants(self.0.permissions@, action, resource)
    }

    /// Whether the caller holds exactly the pair `(action, resource)`.
    pub fn has_permission(&self, action: &str, resource: &str) -> (r: bool)
        ensures
            r == self.may(action@, resource@),
    {
        let required = Permission::new(action, resource);
        let perms = &self.0.permissions;
        let mut i: usize = 0;
        while i < perms.len()
            invariant
                i <= perms.len(),
                perms@ == self.0.permissions@,
                required.action@ == action@,
                required.resource@ == resource@,
                forall|j: int|
                    0 <= j < i ==> !(perms@[j].action@ == action@ && perms@[j].resource@
                        == resource@),
            decreases perms.len() - i,
        {
            if perms[i].action == required.action && perms[i].resource == required.resource {
                return true;
            }
            i = i + 1;
        }
        false
    }

    /// Whether the caller holds at least one of the listed pairs.
    pub fn has_any_permission(&self, permissions: &[(String, String)]) -> (r: bool)
        ensures
            r == grants_any(self.0.permissions@, permissions@),
    {
        let mut k: usize = 0;
        while k < permissions.len()
            invariant
                k <= permissions@.len(),
                forall|j: int|
                    0 <= j < k ==> !grants(
                        self.0.permissions@,
                        permissions@[j].0@,
                        permissions@[j].1@,
                    ),
            decreases permissions@.len() - k,
        {
            if self.has_permission(permissions[k].0.as_str(), permissions[k].1.as_str()) {
                return true;
            }
            k = k + 1;
        }
        false
    }
}

} // verus!
