use vstd::prelude::*;

use crate::types::{CapabilityError, ConfigFile};

verus! {

/// Stores and retrieves the two named string settings and manages the
/// location that backs them.
///
/// The ghost views are `stored`, the value currently held under each key,
/// and `has_config_dir`, whether the backing location exists. Reading a key
/// succeeds exactly when the key is present; writing, removing and creating
/// the location may fail for environment reasons, and a failed operation
/// leaves every view as it was.
pub trait ConfigManagement: Sized {
    open spec fn stored(&self, file: ConfigFile) -> Option<Seq<char>> {
        None
    }

    open spec fn has_config_dir(&self) -> bool {
        false
    }

    fn config_dir_exists(&self) -> (r: bool)
        ensures
            r == self.has_config_dir(),
    ;

    fn config_dir_create(&mut self) -> (r: Result<(), CapabilityError>)
        ensures
            forall|f: ConfigFile| final(self).stored(f) == old(self).stored(f),
            r is Ok ==> final(self).has_config_dir(),
            r is Err ==> final(self).has_config_dir() == old(self).has_config_dir(),
    ;

    fn config_read(&self, file: ConfigFile) -> (r: Result<String, CapabilityError>)
        ensures
            (match r {
                Ok(value) => self.stored(file) == Some(value@),
                Err(_) => self.stored(file) is None,
            }),
    ;

    fn config_write(&mut self, file: ConfigFile, value: String) -> (r: Result<
        (),
        CapabilityError,
    >)
        ensures
            final(self).has_config_dir() == old(self).has_config_dir(),
            r is Ok ==> final(self).stored(file) == Some(value@),
            r is Ok ==> forall|f: ConfigFile|
                f != file ==> final(self).stored(f) == old(self).stored(f),
            r is Err ==> forall|f: ConfigFile| final(self).stored(f) == old(self).stored(f),
    ;
}

/// Removes the file that backs a single config key.
pub trait FileManagement: ConfigManagement {
    fn file_rm(&mut self, file: ConfigFile) -> (r: Result<(), CapabilityError>)
        ensures
            final(self).has_config_dir() == old(self).has_config_dir(),
            r is Ok ==> final(self).stored(file) is None,
            r is Ok ==> forall|f: ConfigFile|
                f != file ==> final(self).stored(f) == old(self).stored(f),
            r is Err ==> forall|f: ConfigFile| final(self).stored(f) == old(self).stored(f),
    ;
}

} // verus!
