//! The UPower object paths the daemon serves, checked against the D-Bus
//! object-path grammar.
use vstd::prelude::*;

verus! {

/// Object path of the UPower manager object.
pub const MANAGER_PATH: &'static str = "/org/freedesktop/UPower";
/// Object path of the battery device object.
pub const BATTERY_PATH: &'static str = "/org/freedesktop/UPower/devices/battery_argon";

#[verifier::external_type_specification]
#[verifier::external_body]
pub struct ExOwnedObjectPath(zbus::zvariant::OwnedObjectPath);

#[verifier::external_type_specification]
#[verifier::external_body]
pub struct ExZvariantError(zbus::zvariant::Error);

/// A character that may stand in a D-Bus object path: an ASCII letter or
/// digit, `_` or `/`.
pub open spec fn path_char(c: char) -> bool {
    ||| ('a' as u32 <= c as u32 <= 'z' as u32)
    ||| ('A' as u32 <= c as u32 <= 'Z' as u32)
    ||| ('0' as u32 <= c as u32 <= '9' as u32)
    ||| c == '_'
    ||| c == '/'
}

/// The D-Bus object-path grammar: not empty, starts with `/`, only
/// [`path_char`]s, no `//`, and no trailing `/` except for the root path.
pub open spec fn valid_object_path(p: Seq<char>) -> bool {
    &&& p.len() >= 1
    &&& p[0] == '/'
    &&& forall|i: int| 0 <= i < p.len() ==> path_char(#[trigger] p[i])
    &&& forall|i: int| 0 < i < p.len() ==> !(#[trigger] p[i] == '/' && p[i - 1] == '/')
    &&& p.len() > 1 ==> p[p.len() - 1] != '/'
}

/// The owned D-Bus object path that zvariant builds from a valid path text.
pub uninterp spec fn object_path_of(path: Seq<char>) -> zbus::zvariant::OwnedObjectPath;

/// Builds an owned D-Bus object path with
/// `<zbus::zvariant::OwnedObjectPath as TryFrom<&str>>::try_from`, which
/// succeeds exactly on strings of the D-Bus object-path grammar (zvariant's
/// `ensure_correct_object_path_str`), and then gives the path built from
/// exactly that text, the same for the same text.
#[verifier::external_body]
fn owned_object_path(path: &'static str) -> (r: Result<zbus::zvariant::OwnedObjectPath, zbus::zvariant::Error>)
    ensures
        r is Ok <==> valid_object_path(path@),
        r matches Ok(p) ==> p == object_path_of(path@),
{
    zbus::zvariant::OwnedObjectPath::try_from(path)
}

/// The battery device as the D-Bus object path built from the battery path;
/// never an error, since that path obeys the object-path grammar.
pub fn display_device() -> (r: Result<zbus::zvariant::OwnedObjectPath, zbus::zvariant::Error>)
    ensures
        r is Ok,
        r matches Ok(p) ==> p == object_path_of(BATTERY_PATH@),
{
    proof {
        lemma_battery_path_valid();
    }
    owned_object_path(BATTERY_PATH)
}

/// The devices the daemon serves: the battery's object path alone.
pub fn enumerate_devices() -> (r: Result<Vec<zbus::zvariant::OwnedObjectPath>, zbus::zvariant::Error>)
    ensures
        r is Ok,
        r matches Ok(v) ==> v@ == seq![object_path_of(BATTERY_PATH@)],
{
    proof {
        lemma_battery_path_valid();
    }
    match owned_object_path(BATTERY_PATH) {
        Ok(p) => {
            let mut v = Vec::new();
            v.push(p);
            Ok(v)
        },
        Err(e) => Err(e),
    }
}

/// The battery path obeys the D-Bus object-path grammar.
pub proof fn lemma_battery_path_valid()
    ensures
        valid_object_path(BATTERY_PATH@),
{
    reveal_strlit("/org/freedesktop/UPower/devices/battery_argon");
}

} // verus!
