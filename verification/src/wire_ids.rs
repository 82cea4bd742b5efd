//! Where each kind of component, each enchantment and each kind of damage sits in each supported
//! version's registry, which is the number a client of that version reads it as.
use crate::components::{component_id, ComponentType};
use crate::damage_types::DamageType;
use vstd::prelude::*;

verus! {

/// A version of the game a client may speak, oldest first.
#[derive(Debug, Clone, Copy, PartialEq, Eq, Structural)]
pub enum ProtocolVersion {
    /// 1.21
    V1_21,
    /// 1.21.2
    V1_21_2,
    /// 1.21.4
    V1_21_4,
    /// 1.21.5
    V1_21_5,
    /// 1.21.6
    V1_21_6,
    /// 1.21.8
    V1_21_8,
    /// 1.21.9
    V1_21_9,
    /// 1.21.11
    V1_21_11,
    /// 26.1
    V26_1,
    /// 26.2
    V26_2,
}

impl ProtocolVersion {
    /// Every supported version, oldest first.
    pub const ALL: [ProtocolVersion; 10] = [
        ProtocolVersion::V1_21,
        ProtocolVersion::V1_21_2,
        ProtocolVersion::V1_21_4,
        ProtocolVersion::V1_21_5,
        ProtocolVersion::V1_21_6,
        ProtocolVersion::V1_21_8,
        ProtocolVersion::V1_21_9,
        ProtocolVersion::V1_21_11,
        ProtocolVersion::V26_1,
        ProtocolVersion::V26_2,
    ];
}

/// The version this server speaks itself.
pub const CURRENT: ProtocolVersion = ProtocolVersion::V26_2;

/// How many kinds of component there are.
pub const COMPONENT_KINDS: usize = 111;

/// How many enchantments there are.
pub const ENCHANTMENTS: u16 = 43;

/// Where each component sits in a version's registry, by this server's own number for it, or
/// below nought where the version does not have it.
pub open spec fn component_table(version: ProtocolVersion) -> Seq<i32> {
    match version {
        ProtocolVersion::V1_21 => seq![0i32, 1i32, 2i32, 3i32, 4i32, -1i32, 5i32, -1i32, -1i32, 6i32, -1i32, 7i32, 8i32, 9i32, 10i32, 11i32, 12i32, 13i32, -1i32, 16i32, 17i32, 18i32, 19i32, 20i32, -1i32, -1i32, -1i32, -1i32, 22i32, -1i32, -1i32, -1i32, -1i32, -1i32, -1i32, -1i32, -1i32, -1i32, -1i32, -1i32, -1i32, -1i32, 23i32, -1i32, 24i32, 25i32, 26i32, 27i32, 28i32, 29i32, 30i32, 31i32, -1i32, 32i32, 33i32, 34i32, 35i32, 36i32, 37i32, 38i32, 39i32, 40i32, -1i32, 41i32, 42i32, -1i32, 43i32, 44i32, 45i32, 46i32, 47i32, 48i32, 49i32, 50i32, 51i32, 52i32, 53i32, 54i32, -1i32, 55i32, 56i32, -1i32, -1i32, -1i32, -1i32, -1i32, -1i32, -1i32, -1i32, -1i32, -1i32, -1i32, -1i32, -1i32, -1i32, -1i32, -1i32, -1i32, -1i32, -1i32, -1i32, -1i32, -1i32, -1i32, -1i32, -1i32, -1i32, -1i32, -1i32, -1i32, -1i32],
        ProtocolVersion::V1_21_2 => seq![0i32, 1i32, 2i32, 3i32, 4i32, -1i32, 5i32, -1i32, -1i32, 6i32, 7i32, 8i32, 9i32, 10i32, 11i32, 12i32, 13i32, 14i32, -1i32, 17i32, 18i32, 19i32, 20i32, 21i32, 22i32, 23i32, 24i32, 25i32, 26i32, -1i32, -1i32, 27i32, 28i32, 29i32, 30i32, 31i32, 32i32, -1i32, -1i32, -1i32, -1i32, -1i32, 33i32, -1i32, 34i32, 35i32, 36i32, 37i32, 38i32, 39i32, 40i32, 41i32, -1i32, 42i32, 43i32, 44i32, 45i32, 46i32, 47i32, 48i32, 49i32, 50i32, -1i32, 51i32, 52i32, -1i32, 53i32, 54i32, 55i32, 56i32, 57i32, 58i32, 59i32, 60i32, 61i32, 62i32, 63i32, 64i32, -1i32, 65i32, 66i32, -1i32, -1i32, -1i32, -1i32, -1i32, -1i32, -1i32, -1i32, -1i32, -1i32, -1i32, -1i32, -1i32, -1i32, -1i32, -1i32, -1i32, -1i32, -1i32, -1i32, -1i32, -1i32, -1i32, -1i32, -1i32, -1i32, -1i32, -1i32, -1i32, -1i32],
        ProtocolVersion::V1_21_4 => seq![0i32, 1i32, 2i32, 3i32, 4i32, -1i32, 5i32, -1i32, -1i32, 6i32, 7i32, 8i32, 9i32, 10i32, 11i32, 12i32, 13i32, 14i32, -1i32, 17i32, 18i32, 19i32, 20i32, 21i32, 22i32, 23i32, 24i32, 25i32, 26i32, -1i32, -1i32, 27i32, 28i32, 29i32, 30i32, 31i32, 32i32, -1i32, -1i32, -1i32, -1i32, -1i32, 33i32, -1i32, 34i32, 35i32, 36i32, 37i32, 38i32, 39i32, 40i32, 41i32, -1i32, 42i32, 43i32, 44i32, 45i32, 46i32, 47i32, 48i32, 49i32, 50i32, -1i32, 51i32, 52i32, -1i32, 53i32, 54i32, 55i32, 56i32, 57i32, 58i32, 59i32, 60i32, 61i32, 62i32, 63i32, 64i32, -1i32, 65i32, 66i32, -1i32, -1i32, -1i32, -1i32, -1i32, -1i32, -1i32, -1i32, -1i32, -1i32, -1i32, -1i32, -1i32, -1i32, -1i32, -1i32, -1i32, -1i32, -1i32, -1i32, -1i32, -1i32, -1i32, -1i32, -1i32, -1i32, -1i32, -1i32, -1i32, -1i32],
        ProtocolVersion::V1_21_5 => seq![0i32, 1i32, 2i32, 3i32, 4i32, -1i32, 5i32, -1i32, -1i32, 6i32, 7i32, 8i32, 9i32, 10i32, 11i32, 12i32, 13i32, 14i32, 15i32, 16i32, 17i32, 18i32, 19i32, 20i32, 21i32, 22i32, 23i32, 24i32, 25i32, 26i32, -1i32, 27i32, 28i32, 29i32, 30i32, 31i32, 32i32, 33i32, -1i32, -1i32, -1i32, -1i32, 34i32, -1i32, 35i32, 36i32, 37i32, 38i32, 39i32, 40i32, 41i32, 42i32, 43i32, 44i32, 45i32, 46i32, 47i32, 48i32, 49i32, 50i32, 51i32, 52i32, 53i32, 54i32, 55i32, 56i32, 57i32, 58i32, 59i32, 60i32, 61i32, 62i32, 63i32, 64i32, 65i32, 66i32, 67i32, 68i32, -1i32, 69i32, 70i32, 71i32, 72i32, 73i32, 74i32, 75i32, 76i32, 77i32, 78i32, 79i32, 80i32, 81i32, 82i32, 83i32, 84i32, -1i32, 85i32, -1i32, 86i32, -1i32, -1i32, 87i32, 88i32, 89i32, 90i32, 91i32, 92i32, -1i32, 93i32, 94i32, 95i32],
        ProtocolVersion::V1_21_6 => seq![0i32, 1i32, 2i32, 3i32, 4i32, -1i32, 5i32, -1i32, -1i32, 6i32, 7i32, 8i32, 9i32, 10i32, 11i32, 12i32, 13i32, 14i32, 15i32, 16i32, 17i32, 18i32, 19i32, 20i32, 21i32, 22i32, 23i32, 24i32, 25i32, 26i32, -1i32, 27i32, 28i32, 29i32, 30i32, 31i32, 32i32, 33i32, -1i32, -1i32, -1i32, -1i32, 34i32, -1i32, 35i32, 36i32, 37i32, 38i32, 39i32, 40i32, 41i32, 42i32, 43i32, 44i32, 45i32, 46i32, 47i32, 48i32, 49i32, 50i32, 51i32, 52i32, 53i32, 54i32, 55i32, 56i32, 57i32, 58i32, 59i32, 60i32, 61i32, 62i32, 63i32, 64i32, 65i32, 66i32, 67i32, 68i32, -1i32, 69i32, 70i32, 71i32, 72i32, 73i32, 74i32, 75i32, 76i32, 77i32, 78i32, 79i32, 80i32, 81i32, 82i32, 83i32, 84i32, -1i32, 85i32, -1i32, 86i32, -1i32, -1i32, 87i32, 88i32, 89i32, 90i32, 91i32, 92i32, -1i32, 93i32, 94i32, 95i32],
        ProtocolVersion::V1_21_8 => seq![0i32, 1i32, 2i32, 3i32, 4i32, -1i32, 5i32, -1i32, -1i32, 6i32, 7i32, 8i32, 9i32, 10i32, 11i32, 12i32, 13i32, 14i32, 15i32, 16i32, 17i32, 18i32, 19i32, 20i32, 21i32, 22i32, 23i32, 24i32, 25i32, 26i32, -1i32, 27i32, 28i32, 29i32, 30i32, 31i32, 32i32, 33i32, -1i32, -1i32, -1i32, -1i32, 34i32, -1i32, 35i32, 36i32, 37i32, 38i32, 39i32, 40i32, 41i32, 42i32, 43i32, 44i32, 45i32, 46i32, 47i32, 48i32, 49i32, 50i32, 51i32, 52i32, 53i32, 54i32, 55i32, 56i32, 57i32, 58i32, 59i32, 60i32, 61i32, 62i32, 63i32, 64i32, 65i32, 66i32, 67i32, 68i32, -1i32, 69i32, 70i32, 71i32, 72i32, 73i32, 74i32, 75i32, 76i32, 77i32, 78i32, 79i32, 80i32, 81i32, 82i32, 83i32, 84i32, -1i32, 85i32, -1i32, 86i32, -1i32, -1i32, 87i32, 88i32, 89i32, 90i32, 91i32, 92i32, -1i32, 93i32, 94i32, 95i32],
        ProtocolVersion::V1_21_9 => seq![0i32, 1i32, 2i32, 3i32, 4i32, -1i32, 5i32, -1i32, -1i32, 6i32, 7i32, 8i32, 9i32, 10i32, 11i32, 12i32, 13i32, 14i32, 15i32, 16i32, 17i32, 18i32, 19i32, 20i32, 21i32, 22i32, 23i32, 24i32, 25i32, 26i32, -1i32, 27i32, 28i32, 29i32, 30i32, 31i32, 32i32, 33i32, -1i32, -1i32, -1i32, -1i32, 34i32, -1i32, 35i32, 36i32, 37i32, 38i32, 39i32, 40i32, 41i32, 42i32, 43i32, 44i32, 45i32, 46i32, 47i32, 48i32, 49i32, 50i32, 51i32, 52i32, 53i32, 54i32, 55i32, 56i32, 57i32, 58i32, 59i32, 60i32, 61i32, 62i32, 63i32, 64i32, 65i32, 66i32, 67i32, 68i32, -1i32, 69i32, 70i32, 71i32, 72i32, 73i32, 74i32, 75i32, 76i32, 77i32, 78i32, 79i32, 80i32, 81i32, 82i32, 83i32, 84i32, -1i32, 85i32, -1i32, 86i32, -1i32, -1i32, 87i32, 88i32, 89i32, 90i32, 91i32, 92i32, -1i32, 93i32, 94i32, 95i32],
        ProtocolVersion::V1_21_11 => seq![0i32, 1i32, 2i32, 3i32, 4i32, 5i32, 6i32, 7i32, 8i32, 9i32, 10i32, 11i32, 12i32, 13i32, 14i32, 15i32, 16i32, 17i32, 18i32, 19i32, 20i32, 21i32, 22i32, 23i32, 24i32, 25i32, 26i32, 27i32, 28i32, 29i32, 30i32, 31i32, 32i32, 33i32, 34i32, 35i32, 36i32, 37i32, 38i32, 39i32, 40i32, -1i32, 41i32, -1i32, 42i32, 43i32, 44i32, 45i32, 46i32, 47i32, 48i32, 49i32, 50i32, 51i32, 52i32, 53i32, 54i32, 55i32, 56i32, 57i32, 58i32, 59i32, 60i32, 61i32, 62i32, 63i32, 64i32, 65i32, 66i32, 67i32, 68i32, 69i32, 70i32, 71i32, 72i32, 73i32, 74i32, 75i32, -1i32, 76i32, 77i32, 78i32, 79i32, 80i32, 81i32, 82i32, 83i32, 84i32, 85i32, 86i32, 87i32, 88i32, 89i32, 90i32, 91i32, -1i32, 92i32, -1i32, 93i32, -1i32, 94i32, 95i32, 96i32, 97i32, 98i32, 99i32, 100i32, -1i32, 101i32, 102i32, 103i32],
        ProtocolVersion::V26_1 => seq![0i32, 1i32, 2i32, 3i32, 4i32, 5i32, 6i32, 7i32, 8i32, 9i32, 10i32, 11i32, 12i32, 13i32, 14i32, 15i32, 16i32, 17i32, 18i32, 19i32, 20i32, 21i32, 22i32, 23i32, 24i32, 25i32, 26i32, 27i32, 28i32, 29i32, 30i32, 31i32, 32i32, 33i32, 34i32, 35i32, 36i32, 37i32, 38i32, 39i32, 40i32, 41i32, 42i32, 43i32, 44i32, 45i32, 46i32, 47i32, 48i32, 49i32, 50i32, 51i32, 52i32, 53i32, 54i32, 55i32, 56i32, 57i32, 58i32, 59i32, 60i32, 61i32, 62i32, 63i32, 64i32, 65i32, 66i32, 67i32, 68i32, 69i32, 70i32, 71i32, 72i32, 73i32, 74i32, 75i32, 76i32, 77i32, -1i32, 78i32, 79i32, 80i32, 81i32, 82i32, 83i32, 84i32, 85i32, 86i32, 87i32, 88i32, 89i32, 90i32, 91i32, 92i32, 93i32, 94i32, 95i32, 96i32, 97i32, 98i32, 99i32, 100i32, 101i32, 102i32, 103i32, 104i32, 105i32, 106i32, 107i32, 108i32, 109i32],
        ProtocolVersion::V26_2 => seq![0i32, 1i32, 2i32, 3i32, 4i32, 5i32, 6i32, 7i32, 8i32, 9i32, 10i32, 11i32, 12i32, 13i32, 14i32, 15i32, 16i32, 17i32, 18i32, 19i32, 20i32, 21i32, 22i32, 23i32, 24i32, 25i32, 26i32, 27i32, 28i32, 29i32, 30i32, 31i32, 32i32, 33i32, 34i32, 35i32, 36i32, 37i32, 38i32, 39i32, 40i32, 41i32, 42i32, 43i32, 44i32, 45i32, 46i32, 47i32, 48i32, 49i32, 50i32, 51i32, 52i32, 53i32, 54i32, 55i32, 56i32, 57i32, 58i32, 59i32, 60i32, 61i32, 62i32, 63i32, 64i32, 65i32, 66i32, 67i32, 68i32, 69i32, 70i32, 71i32, 72i32, 73i32, 74i32, 75i32, 76i32, 77i32, 78i32, 79i32, 80i32, 81i32, 82i32, 83i32, 84i32, 85i32, 86i32, 87i32, 88i32, 89i32, 90i32, 91i32, 92i32, 93i32, 94i32, 95i32, 96i32, 97i32, 98i32, 99i32, 100i32, 101i32, 102i32, 103i32, 104i32, 105i32, 106i32, 107i32, 108i32, 109i32, 110i32],
    }
}

/// Where the component this server numbers `at` sits in a version's registry, or below nought.
pub fn component_number(version: ProtocolVersion, at: usize) -> (r: i32)
    requires
        at < 111,
    ensures
        r == component_table(version)[at as int],
{
    let row: [i32; 111] = match version {
        ProtocolVersion::V1_21 => [0i32, 1i32, 2i32, 3i32, 4i32, -1i32, 5i32, -1i32, -1i32, 6i32, -1i32, 7i32, 8i32, 9i32, 10i32, 11i32, 12i32, 13i32, -1i32, 16i32, 17i32, 18i32, 19i32, 20i32, -1i32, -1i32, -1i32, -1i32, 22i32, -1i32, -1i32, -1i32, -1i32, -1i32, -1i32, -1i32, -1i32, -1i32, -1i32, -1i32, -1i32, -1i32, 23i32, -1i32, 24i32, 25i32, 26i32, 27i32, 28i32, 29i32, 30i32, 31i32, -1i32, 32i32, 33i32, 34i32, 35i32, 36i32, 37i32, 38i32, 39i32, 40i32, -1i32, 41i32, 42i32, -1i32, 43i32, 44i32, 45i32, 46i32, 47i32, 48i32, 49i32, 50i32, 51i32, 52i32, 53i32, 54i32, -1i32, 55i32, 56i32, -1i32, -1i32, -1i32, -1i32, -1i32, -1i32, -1i32, -1i32, -1i32, -1i32, -1i32, -1i32, -1i32, -1i32, -1i32, -1i32, -1i32, -1i32, -1i32, -1i32, -1i32, -1i32, -1i32, -1i32, -1i32, -1i32, -1i32, -1i32, -1i32, -1i32],
        ProtocolVersion::V1_21_2 => [0i32, 1i32, 2i32, 3i32, 4i32, -1i32, 5i32, -1i32, -1i32, 6i32, 7i32, 8i32, 9i32, 10i32, 11i32, 12i32, 13i32, 14i32, -1i32, 17i32, 18i32, 19i32, 20i32, 21i32, 22i32, 23i32, 24i32, 25i32, 26i32, -1i32, -1i32, 27i32, 28i32, 29i32, 30i32, 31i32, 32i32, -1i32, -1i32, -1i32, -1i32, -1i32, 33i32, -1i32, 34i32, 35i32, 36i32, 37i32, 38i32, 39i32, 40i32, 41i32, -1i32, 42i32, 43i32, 44i32, 45i32, 46i32, 47i32, 48i32, 49i32, 50i32, -1i32, 51i32, 52i32, -1i32, 53i32, 54i32, 55i32, 56i32, 57i32, 58i32, 59i32, 60i32, 61i32, 62i32, 63i32, 64i32, -1i32, 65i32, 66i32, -1i32, -1i32, -1i32, -1i32, -1i32, -1i32, -1i32, -1i32, -1i32, -1i32, -1i32, -1i32, -1i32, -1i32, -1i32, -1i32, -1i32, -1i32, -1i32, -1i32, -1i32, -1i32, -1i32, -1i32, -1i32, -1i32, -1i32, -1i32, -1i32, -1i32],
        ProtocolVersion::V1_21_4 => [0i32, 1i32, 2i32, 3i32, 4i32, -1i32, 5i32, -1i32, -1i32, 6i32, 7i32, 8i32, 9i32, 10i32, 11i32, 12i32, 13i32, 14i32, -1i32, 17i32, 18i32, 19i32, 20i32, 21i32, 22i32, 23i32, 24i32, 25i32, 26i32, -1i32, -1i32, 27i32, 28i32, 29i32, 30i32, 31i32, 32i32, -1i32, -1i32, -1i32, -1i32, -1i32, 33i32, -1i32, 34i32, 35i32, 36i32, 37i32, 38i32, 39i32, 40i32, 41i32, -1i32, 42i32, 43i32, 44i32, 45i32, 46i32, 47i32, 48i32, 49i32, 50i32, -1i32, 51i32, 52i32, -1i32, 53i32, 54i32, 55i32, 56i32, 57i32, 58i32, 59i32, 60i32, 61i32, 62i32, 63i32, 64i32, -1i32, 65i32, 66i32, -1i32, -1i32, -1i32, -1i32, -1i32, -1i32, -1i32, -1i32, -1i32, -1i32, -1i32, -1i32, -1i32, -1i32, -1i32, -1i32, -1i32, -1i32, -1i32, -1i32, -1i32, -1i32, -1i32, -1i32, -1i32, -1i32, -1i32, -1i32, -1i32, -1i32],
        ProtocolVersion::V1_21_5 => [0i32, 1i32, 2i32, 3i32, 4i32, -1i32, 5i32, -1i32, -1i32, 6i32, 7i32, 8i32, 9i32, 10i32, 11i32, 12i32, 13i32, 14i32, 15i32, 16i32, 17i32, 18i32, 19i32, 20i32, 21i32, 22i32, 23i32, 24i32, 25i32, 26i32, -1i32, 27i32, 28i32, 29i32, 30i32, 31i32, 32i32, 33i32, -1i32, -1i32, -1i32, -1i32, 34i32, -1i32, 35i32, 36i32, 37i32, 38i32, 39i32, 40i32, 41i32, 42i32, 43i32, 44i32, 45i32, 46i32, 47i32, 48i32, 49i32, 50i32, 51i32, 52i32, 53i32, 54i32, 55i32, 56i32, 57i32, 58i32, 59i32, 60i32, 61i32, 62i32, 63i32, 64i32, 65i32, 66i32, 67i32, 68i32, -1i32, 69i32, 70i32, 71i32, 72i32, 73i32, 74i32, 75i32, 76i32, 77i32, 78i32, 79i32, 80i32, 81i32, 82i32, 83i32, 84i32, -1i32, 85i32, -1i32, 86i32, -1i32, -1i32, 87i32, 88i32, 89i32, 90i32, 91i32, 92i32, -1i32, 93i32, 94i32, 95i32],
        ProtocolVersion::V1_21_6 => [0i32, 1i32, 2i32, 3i32, 4i32, -1i32, 5i32, -1i32, -1i32, 6i32, 7i32, 8i32, 9i32, 10i32, 11i32, 12i32, 13i32, 14i32, 15i32, 16i32, 17i32, 18i32, 19i32, 20i32, 21i32, 22i32, 23i32, 24i32, 25i32, 26i32, -1i32, 27i32, 28i32, 29i32, 30i32, 31i32, 32i32, 33i32, -1i32, -1i32, -1i32, -1i32, 34i32, -1i32, 35i32, 36i32, 37i32, 38i32, 39i32, 40i32, 41i32, 42i32, 43i32, 44i32, 45i32, 46i32, 47i32, 48i32, 49i32, 50i32, 51i32, 52i32, 53i32, 54i32, 55i32, 56i32, 57i32, 58i32, 59i32, 60i32, 61i32, 62i32, 63i32, 64i32, 65i32, 66i32, 67i32, 68i32, -1i32, 69i32, 70i32, 71i32, 72i32, 73i32, 74i32, 75i32, 76i32, 77i32, 78i32, 79i32, 80i32, 81i32, 82i32, 83i32, 84i32, -1i32, 85i32, -1i32, 86i32, -1i32, -1i32, 87i32, 88i32, 89i32, 90i32, 91i32, 92i32, -1i32, 93i32, 94i32, 95i32],
        ProtocolVersion::V1_21_8 => [0i32, 1i32, 2i32, 3i32, 4i32, -1i32, 5i32, -1i32, -1i32, 6i32, 7i32, 8i32, 9i32, 10i32, 11i32, 12i32, 13i32, 14i32, 15i32, 16i32, 17i32, 18i32, 19i32, 20i32, 21i32, 22i32, 23i32, 24i32, 25i32, 26i32, -1i32, 27i32, 28i32, 29i32, 30i32, 31i32, 32i32, 33i32, -1i32, -1i32, -1i32, -1i32, 34i32, -1i32, 35i32, 36i32, 37i32, 38i32, 39i32, 40i32, 41i32, 42i32, 43i32, 44i32, 45i32, 46i32, 47i32, 48i32, 49i32, 50i32, 51i32, 52i32, 53i32, 54i32, 55i32, 56i32, 57i32, 58i32, 59i32, 60i32, 61i32, 62i32, 63i32, 64i32, 65i32, 66i32, 67i32, 68i32, -1i32, 69i32, 70i32, 71i32, 72i32, 73i32, 74i32, 75i32, 76i32, 77i32, 78i32, 79i32, 80i32, 81i32, 82i32, 83i32, 84i32, -1i32, 85i32, -1i32, 86i32, -1i32, -1i32, 87i32, 88i32, 89i32, 90i32, 91i32, 92i32, -1i32, 93i32, 94i32, 95i32],
        ProtocolVersion::V1_21_9 => [0i32, 1i32, 2i32, 3i32, 4i32, -1i32, 5i32, -1i32, -1i32, 6i32, 7i32, 8i32, 9i32, 10i32, 11i32, 12i32, 13i32, 14i32, 15i32, 16i32, 17i32, 18i32, 19i32, 20i32, 21i32, 22i32, 23i32, 24i32, 25i32, 26i32, -1i32, 27i32, 28i32, 29i32, 30i32, 31i32, 32i32, 33i32, -1i32, -1i32, -1i32, -1i32, 34i32, -1i32, 35i32, 36i32, 37i32, 38i32, 39i32, 40i32, 41i32, 42i32, 43i32, 44i32, 45i32, 46i32, 47i32, 48i32, 49i32, 50i32, 51i32, 52i32, 53i32, 54i32, 55i32, 56i32, 57i32, 58i32, 59i32, 60i32, 61i32, 62i32, 63i32, 64i32, 65i32, 66i32, 67i32, 68i32, -1i32, 69i32, 70i32, 71i32, 72i32, 73i32, 74i32, 75i32, 76i32, 77i32, 78i32, 79i32, 80i32, 81i32, 82i32, 83i32, 84i32, -1i32, 85i32, -1i32, 86i32, -1i32, -1i32, 87i32, 88i32, 89i32, 90i32, 91i32, 92i32, -1i32, 93i32, 94i32, 95i32],
        ProtocolVersion::V1_21_11 => [0i32, 1i32, 2i32, 3i32, 4i32, 5i32, 6i32, 7i32, 8i32, 9i32, 10i32, 11i32, 12i32, 13i32, 14i32, 15i32, 16i32, 17i32, 18i32, 19i32, 20i32, 21i32, 22i32, 23i32, 24i32, 25i32, 26i32, 27i32, 28i32, 29i32, 30i32, 31i32, 32i32, 33i32, 34i32, 35i32, 36i32, 37i32, 38i32, 39i32, 40i32, -1i32, 41i32, -1i32, 42i32, 43i32, 44i32, 45i32, 46i32, 47i32, 48i32, 49i32, 50i32, 51i32, 52i32, 53i32, 54i32, 55i32, 56i32, 57i32, 58i32, 59i32, 60i32, 61i32, 62i32, 63i32, 64i32, 65i32, 66i32, 67i32, 68i32, 69i32, 70i32, 71i32, 72i32, 73i32, 74i32, 75i32, -1i32, 76i32, 77i32, 78i32, 79i32, 80i32, 81i32, 82i32, 83i32, 84i32, 85i32, 86i32, 87i32, 88i32, 89i32, 90i32, 91i32, -1i32, 92i32, -1i32, 93i32, -1i32, 94i32, 95i32, 96i32, 97i32, 98i32, 99i32, 100i32, -1i32, 101i32, 102i32, 103i32],
        ProtocolVersion::V26_1 => [0i32, 1i32, 2i32, 3i32, 4i32, 5i32, 6i32, 7i32, 8i32, 9i32, 10i32, 11i32, 12i32, 13i32, 14i32, 15i32, 16i32, 17i32, 18i32, 19i32, 20i32, 21i32, 22i32, 23i32, 24i32, 25i32, 26i32, 27i32, 28i32, 29i32, 30i32, 31i32, 32i32, 33i32, 34i32, 35i32, 36i32, 37i32, 38i32, 39i32, 40i32, 41i32, 42i32, 43i32, 44i32, 45i32, 46i32, 47i32, 48i32, 49i32, 50i32, 51i32, 52i32, 53i32, 54i32, 55i32, 56i32, 57i32, 58i32, 59i32, 60i32, 61i32, 62i32, 63i32, 64i32, 65i32, 66i32, 67i32, 68i32, 69i32, 70i32, 71i32, 72i32, 73i32, 74i32, 75i32, 76i32, 77i32, -1i32, 78i32, 79i32, 80i32, 81i32, 82i32, 83i32, 84i32, 85i32, 86i32, 87i32, 88i32, 89i32, 90i32, 91i32, 92i32, 93i32, 94i32, 95i32, 96i32, 97i32, 98i32, 99i32, 100i32, 101i32, 102i32, 103i32, 104i32, 105i32, 106i32, 107i32, 108i32, 109i32],
        ProtocolVersion::V26_2 => [0i32, 1i32, 2i32, 3i32, 4i32, 5i32, 6i32, 7i32, 8i32, 9i32, 10i32, 11i32, 12i32, 13i32, 14i32, 15i32, 16i32, 17i32, 18i32, 19i32, 20i32, 21i32, 22i32, 23i32, 24i32, 25i32, 26i32, 27i32, 28i32, 29i32, 30i32, 31i32, 32i32, 33i32, 34i32, 35i32, 36i32, 37i32, 38i32, 39i32, 40i32, 41i32, 42i32, 43i32, 44i32, 45i32, 46i32, 47i32, 48i32, 49i32, 50i32, 51i32, 52i32, 53i32, 54i32, 55i32, 56i32, 57i32, 58i32, 59i32, 60i32, 61i32, 62i32, 63i32, 64i32, 65i32, 66i32, 67i32, 68i32, 69i32, 70i32, 71i32, 72i32, 73i32, 74i32, 75i32, 76i32, 77i32, 78i32, 79i32, 80i32, 81i32, 82i32, 83i32, 84i32, 85i32, 86i32, 87i32, 88i32, 89i32, 90i32, 91i32, 92i32, 93i32, 94i32, 95i32, 96i32, 97i32, 98i32, 99i32, 100i32, 101i32, 102i32, 103i32, 104i32, 105i32, 106i32, 107i32, 108i32, 109i32, 110i32],
    };
    assert(row@ =~= component_table(version));
    row[at]
}

/// Where each enchantment sits in a version's registry, by this server's own number for it, or
/// below nought where the version does not have it.
pub open spec fn enchantment_table(version: ProtocolVersion) -> Seq<i32> {
    match version {
        ProtocolVersion::V1_21 => seq![0i32, 1i32, 2i32, 3i32, 4i32, 5i32, 6i32, 7i32, 8i32, 9i32, 10i32, 11i32, 12i32, 13i32, 14i32, 15i32, 16i32, 17i32, 18i32, 19i32, 20i32, -1i32, 21i32, 22i32, 23i32, 24i32, 25i32, 26i32, 27i32, 28i32, 29i32, 30i32, 31i32, 32i32, 33i32, 34i32, 35i32, 36i32, 37i32, 38i32, 39i32, 40i32, 41i32],
        ProtocolVersion::V1_21_2 => seq![0i32, 1i32, 2i32, 3i32, 4i32, 5i32, 6i32, 7i32, 8i32, 9i32, 10i32, 11i32, 12i32, 13i32, 14i32, 15i32, 16i32, 17i32, 18i32, 19i32, 20i32, -1i32, 21i32, 22i32, 23i32, 24i32, 25i32, 26i32, 27i32, 28i32, 29i32, 30i32, 31i32, 32i32, 33i32, 34i32, 35i32, 36i32, 37i32, 38i32, 39i32, 40i32, 41i32],
        ProtocolVersion::V1_21_4 => seq![0i32, 1i32, 2i32, 3i32, 4i32, 5i32, 6i32, 7i32, 8i32, 9i32, 10i32, 11i32, 12i32, 13i32, 14i32, 15i32, 16i32, 17i32, 18i32, 19i32, 20i32, -1i32, 21i32, 22i32, 23i32, 24i32, 25i32, 26i32, 27i32, 28i32, 29i32, 30i32, 31i32, 32i32, 33i32, 34i32, 35i32, 36i32, 37i32, 38i32, 39i32, 40i32, 41i32],
        ProtocolVersion::V1_21_5 => seq![0i32, 1i32, 2i32, 3i32, 4i32, 5i32, 6i32, 7i32, 8i32, 9i32, 10i32, 11i32, 12i32, 13i32, 14i32, 15i32, 16i32, 17i32, 18i32, 19i32, 20i32, -1i32, 21i32, 22i32, 23i32, 24i32, 25i32, 26i32, 27i32, 28i32, 29i32, 30i32, 31i32, 32i32, 33i32, 34i32, 35i32, 36i32, 37i32, 38i32, 39i32, 40i32, 41i32],
        ProtocolVersion::V1_21_6 => seq![0i32, 1i32, 2i32, 3i32, 4i32, 5i32, 6i32, 7i32, 8i32, 9i32, 10i32, 11i32, 12i32, 13i32, 14i32, 15i32, 16i32, 17i32, 18i32, 19i32, 20i32, -1i32, 21i32, 22i32, 23i32, 24i32, 25i32, 26i32, 27i32, 28i32, 29i32, 30i32, 31i32, 32i32, 33i32, 34i32, 35i32, 36i32, 37i32, 38i32, 39i32, 40i32, 41i32],
        ProtocolVersion::V1_21_8 => seq![0i32, 1i32, 2i32, 3i32, 4i32, 5i32, 6i32, 7i32, 8i32, 9i32, 10i32, 11i32, 12i32, 13i32, 14i32, 15i32, 16i32, 17i32, 18i32, 19i32, 20i32, -1i32, 21i32, 22i32, 23i32, 24i32, 25i32, 26i32, 27i32, 28i32, 29i32, 30i32, 31i32, 32i32, 33i32, 34i32, 35i32, 36i32, 37i32, 38i32, 39i32, 40i32, 41i32],
        ProtocolVersion::V1_21_9 => seq![0i32, 1i32, 2i32, 3i32, 4i32, 5i32, 6i32, 7i32, 8i32, 9i32, 10i32, 11i32, 12i32, 13i32, 14i32, 15i32, 16i32, 17i32, 18i32, 19i32, 20i32, -1i32, 21i32, 22i32, 23i32, 24i32, 25i32, 26i32, 27i32, 28i32, 29i32, 30i32, 31i32, 32i32, 33i32, 34i32, 35i32, 36i32, 37i32, 38i32, 39i32, 40i32, 41i32],
        ProtocolVersion::V1_21_11 => seq![0i32, 1i32, 2i32, 3i32, 4i32, 5i32, 6i32, 7i32, 8i32, 9i32, 10i32, 11i32, 12i32, 13i32, 14i32, 15i32, 16i32, 17i32, 18i32, 19i32, 20i32, 21i32, 22i32, 23i32, 24i32, 25i32, 26i32, 27i32, 28i32, 29i32, 30i32, 31i32, 32i32, 33i32, 34i32, 35i32, 36i32, 37i32, 38i32, 39i32, 40i32, 41i32, 42i32],
        ProtocolVersion::V26_1 => seq![0i32, 1i32, 2i32, 3i32, 4i32, 5i32, 6i32, 7i32, 8i32, 9i32, 10i32, 11i32, 12i32, 13i32, 14i32, 15i32, 16i32, 17i32, 18i32, 19i32, 20i32, 21i32, 22i32, 23i32, 24i32, 25i32, 26i32, 27i32, 28i32, 29i32, 30i32, 31i32, 32i32, 33i32, 34i32, 35i32, 36i32, 37i32, 38i32, 39i32, 40i32, 41i32, 42i32],
        ProtocolVersion::V26_2 => seq![0i32, 1i32, 2i32, 3i32, 4i32, 5i32, 6i32, 7i32, 8i32, 9i32, 10i32, 11i32, 12i32, 13i32, 14i32, 15i32, 16i32, 17i32, 18i32, 19i32, 20i32, 21i32, 22i32, 23i32, 24i32, 25i32, 26i32, 27i32, 28i32, 29i32, 30i32, 31i32, 32i32, 33i32, 34i32, 35i32, 36i32, 37i32, 38i32, 39i32, 40i32, 41i32, 42i32],
    }
}

/// Where the enchantment this server numbers `at` sits in a version's registry, or below nought.
pub fn enchantment_number(version: ProtocolVersion, at: usize) -> (r: i32)
    requires
        at < 43,
    ensures
        r == enchantment_table(version)[at as int],
{
    let row: [i32; 43] = match version {
        ProtocolVersion::V1_21 => [0i32, 1i32, 2i32, 3i32, 4i32, 5i32, 6i32, 7i32, 8i32, 9i32, 10i32, 11i32, 12i32, 13i32, 14i32, 15i32, 16i32, 17i32, 18i32, 19i32, 20i32, -1i32, 21i32, 22i32, 23i32, 24i32, 25i32, 26i32, 27i32, 28i32, 29i32, 30i32, 31i32, 32i32, 33i32, 34i32, 35i32, 36i32, 37i32, 38i32, 39i32, 40i32, 41i32],
        ProtocolVersion::V1_21_2 => [0i32, 1i32, 2i32, 3i32, 4i32, 5i32, 6i32, 7i32, 8i32, 9i32, 10i32, 11i32, 12i32, 13i32, 14i32, 15i32, 16i32, 17i32, 18i32, 19i32, 20i32, -1i32, 21i32, 22i32, 23i32, 24i32, 25i32, 26i32, 27i32, 28i32, 29i32, 30i32, 31i32, 32i32, 33i32, 34i32, 35i32, 36i32, 37i32, 38i32, 39i32, 40i32, 41i32],
        ProtocolVersion::V1_21_4 => [0i32, 1i32, 2i32, 3i32, 4i32, 5i32, 6i32, 7i32, 8i32, 9i32, 10i32, 11i32, 12i32, 13i32, 14i32, 15i32, 16i32, 17i32, 18i32, 19i32, 20i32, -1i32, 21i32, 22i32, 23i32, 24i32, 25i32, 26i32, 27i32, 28i32, 29i32, 30i32, 31i32, 32i32, 33i32, 34i32, 35i32, 36i32, 37i32, 38i32, 39i32, 40i32, 41i32],
        ProtocolVersion::V1_21_5 => [0i32, 1i32, 2i32, 3i32, 4i32, 5i32, 6i32, 7i32, 8i32, 9i32, 10i32, 11i32, 12i32, 13i32, 14i32, 15i32, 16i32, 17i32, 18i32, 19i32, 20i32, -1i32, 21i32, 22i32, 23i32, 24i32, 25i32, 26i32, 27i32, 28i32, 29i32, 30i32, 31i32, 32i32, 33i32, 34i32, 35i32, 36i32, 37i32, 38i32, 39i32, 40i32, 41i32],
        ProtocolVersion::V1_21_6 => [0i32, 1i32, 2i32, 3i32, 4i32, 5i32, 6i32, 7i32, 8i32, 9i32, 10i32, 11i32, 12i32, 13i32, 14i32, 15i32, 16i32, 17i32, 18i32, 19i32, 20i32, -1i32, 21i32, 22i32, 23i32, 24i32, 25i32, 26i32, 27i32, 28i32, 29i32, 30i32, 31i32, 32i32, 33i32, 34i32, 35i32, 36i32, 37i32, 38i32, 39i32, 40i32, 41i32],
        ProtocolVersion::V1_21_8 => [0i32, 1i32, 2i32, 3i32, 4i32, 5i32, 6i32, 7i32, 8i32, 9i32, 10i32, 11i32, 12i32, 13i32, 14i32, 15i32, 16i32, 17i32, 18i32, 19i32, 20i32, -1i32, 21i32, 22i32, 23i32, 24i32, 25i32, 26i32, 27i32, 28i32, 29i32, 30i32, 31i32, 32i32, 33i32, 34i32, 35i32, 36i32, 37i32, 38i32, 39i32, 40i32, 41i32],
        ProtocolVersion::V1_21_9 => [0i32, 1i32, 2i32, 3i32, 4i32, 5i32, 6i32, 7i32, 8i32, 9i32, 10i32, 11i32, 12i32, 13i32, 14i32, 15i32, 16i32, 17i32, 18i32, 19i32, 20i32, -1i32, 21i32, 22i32, 23i32, 24i32, 25i32, 26i32, 27i32, 28i32, 29i32, 30i32, 31i32, 32i32, 33i32, 34i32, 35i32, 36i32, 37i32, 38i32, 39i32, 40i32, 41i32],
        ProtocolVersion::V1_21_11 => [0i32, 1i32, 2i32, 3i32, 4i32, 5i32, 6i32, 7i32, 8i32, 9i32, 10i32, 11i32, 12i32, 13i32, 14i32, 15i32, 16i32, 17i32, 18i32, 19i32, 20i32, 21i32, 22i32, 23i32, 24i32, 25i32, 26i32, 27i32, 28i32, 29i32, 30i32, 31i32, 32i32, 33i32, 34i32, 35i32, 36i32, 37i32, 38i32, 39i32, 40i32, 41i32, 42i32],
        ProtocolVersion::V26_1 => [0i32, 1i32, 2i32, 3i32, 4i32, 5i32, 6i32, 7i32, 8i32, 9i32, 10i32, 11i32, 12i32, 13i32, 14i32, 15i32, 16i32, 17i32, 18i32, 19i32, 20i32, 21i32, 22i32, 23i32, 24i32, 25i32, 26i32, 27i32, 28i32, 29i32, 30i32, 31i32, 32i32, 33i32, 34i32, 35i32, 36i32, 37i32, 38i32, 39i32, 40i32, 41i32, 42i32],
        ProtocolVersion::V26_2 => [0i32, 1i32, 2i32, 3i32, 4i32, 5i32, 6i32, 7i32, 8i32, 9i32, 10i32, 11i32, 12i32, 13i32, 14i32, 15i32, 16i32, 17i32, 18i32, 19i32, 20i32, 21i32, 22i32, 23i32, 24i32, 25i32, 26i32, 27i32, 28i32, 29i32, 30i32, 31i32, 32i32, 33i32, 34i32, 35i32, 36i32, 37i32, 38i32, 39i32, 40i32, 41i32, 42i32],
    };
    assert(row@ =~= enchantment_table(version));
    row[at]
}

/// The kind of component this server numbers `at`, if there is one.
pub fn kind_at(at: u16) -> (r: Option<ComponentType>)
    ensures
        match r {
            Some(kind) => component_id(kind) == at,
            None => at >= 111,
        },
{
    match at {
        0 => Some(ComponentType::CustomData),
        1 => Some(ComponentType::MaxStackSize),
        2 => Some(ComponentType::MaxDamage),
        3 => Some(ComponentType::Damage),
        4 => Some(ComponentType::Unbreakable),
        5 => Some(ComponentType::UseEffects),
        6 => Some(ComponentType::CustomName),
        7 => Some(ComponentType::MinimumAttackCharge),
        8 => Some(ComponentType::DamageType),
        9 => Some(ComponentType::ItemName),
        10 => Some(ComponentType::ItemModel),
        11 => Some(ComponentType::Lore),
        12 => Some(ComponentType::Rarity),
        13 => Some(ComponentType::Enchantments),
        14 => Some(ComponentType::CanPlaceOn),
        15 => Some(ComponentType::CanBreak),
        16 => Some(ComponentType::AttributeModifiers),
        17 => Some(ComponentType::CustomModelData),
        18 => Some(ComponentType::TooltipDisplay),
        19 => Some(ComponentType::RepairCost),
        20 => Some(ComponentType::CreativeSlotLock),
        21 => Some(ComponentType::EnchantmentGlintOverride),
        22 => Some(ComponentType::IntangibleProjectile),
        23 => Some(ComponentType::Food),
        24 => Some(ComponentType::Consumable),
        25 => Some(ComponentType::UseRemainder),
        26 => Some(ComponentType::UseCooldown),
        27 => Some(ComponentType::DamageResistant),
        28 => Some(ComponentType::Tool),
        29 => Some(ComponentType::Weapon),
        30 => Some(ComponentType::AttackRange),
        31 => Some(ComponentType::Enchantable),
        32 => Some(ComponentType::Equippable),
        33 => Some(ComponentType::Repairable),
        34 => Some(ComponentType::Glider),
        35 => Some(ComponentType::TooltipStyle),
        36 => Some(ComponentType::DeathProtection),
        37 => Some(ComponentType::BlocksAttacks),
        38 => Some(ComponentType::PiercingWeapon),
        39 => Some(ComponentType::KineticWeapon),
        40 => Some(ComponentType::SwingAnimation),
        41 => Some(ComponentType::AdditionalTradeCost),
        42 => Some(ComponentType::StoredEnchantments),
        43 => Some(ComponentType::Dye),
        44 => Some(ComponentType::DyedColor),
        45 => Some(ComponentType::MapColor),
        46 => Some(ComponentType::MapId),
        47 => Some(ComponentType::MapDecorations),
        48 => Some(ComponentType::MapPostProcessing),
        49 => Some(ComponentType::ChargedProjectiles),
        50 => Some(ComponentType::BundleContents),
        51 => Some(ComponentType::PotionContents),
        52 => Some(ComponentType::PotionDurationScale),
        53 => Some(ComponentType::SuspiciousStewEffects),
        54 => Some(ComponentType::WritableBookContent),
        55 => Some(ComponentType::WrittenBookContent),
        56 => Some(ComponentType::Trim),
        57 => Some(ComponentType::DebugStickState),
        58 => Some(ComponentType::EntityData),
        59 => Some(ComponentType::BucketEntityData),
        60 => Some(ComponentType::BlockEntityData),
        61 => Some(ComponentType::Instrument),
        62 => Some(ComponentType::ProvidesTrimMaterial),
        63 => Some(ComponentType::OminousBottleAmplifier),
        64 => Some(ComponentType::JukeboxPlayable),
        65 => Some(ComponentType::ProvidesBannerPatterns),
        66 => Some(ComponentType::Recipes),
        67 => Some(ComponentType::LodestoneTracker),
        68 => Some(ComponentType::FireworkExplosion),
        69 => Some(ComponentType::Fireworks),
        70 => Some(ComponentType::Profile),
        71 => Some(ComponentType::NoteBlockSound),
        72 => Some(ComponentType::BannerPatterns),
        73 => Some(ComponentType::BaseColor),
        74 => Some(ComponentType::PotDecorations),
        75 => Some(ComponentType::Container),
        76 => Some(ComponentType::BlockState),
        77 => Some(ComponentType::Bees),
        78 => Some(ComponentType::SulfurCubeContent),
        79 => Some(ComponentType::Lock),
        80 => Some(ComponentType::ContainerLoot),
        81 => Some(ComponentType::BreakSound),
        82 => Some(ComponentType::VillagerVariant),
        83 => Some(ComponentType::WolfVariant),
        84 => Some(ComponentType::WolfSoundVariant),
        85 => Some(ComponentType::WolfCollar),
        86 => Some(ComponentType::FoxVariant),
        87 => Some(ComponentType::SalmonSize),
        88 => Some(ComponentType::ParrotVariant),
        89 => Some(ComponentType::TropicalFishPattern),
        90 => Some(ComponentType::TropicalFishBaseColor),
        91 => Some(ComponentType::TropicalFishPatternColor),
        92 => Some(ComponentType::MooshroomVariant),
        93 => Some(ComponentType::RabbitVariant),
        94 => Some(ComponentType::PigVariant),
        95 => Some(ComponentType::PigSoundVariant),
        96 => Some(ComponentType::CowVariant),
        97 => Some(ComponentType::CowSoundVariant),
        98 => Some(ComponentType::ChickenVariant),
        99 => Some(ComponentType::ChickenSoundVariant),
        100 => Some(ComponentType::ZombieNautilusVariant),
        101 => Some(ComponentType::FrogVariant),
        102 => Some(ComponentType::HorseVariant),
        103 => Some(ComponentType::PaintingVariant),
        104 => Some(ComponentType::LlamaVariant),
        105 => Some(ComponentType::AxolotlVariant),
        106 => Some(ComponentType::CatVariant),
        107 => Some(ComponentType::CatSoundVariant),
        108 => Some(ComponentType::CatCollar),
        109 => Some(ComponentType::SheepColor),
        110 => Some(ComponentType::ShulkerColor),
        _ => None,
    }
}


/// Where each kind of damage sits in a version's registry, in the order the packs list the kinds,
/// or below nought where the version does not have it.
pub open spec fn damage_table(version: ProtocolVersion) -> Seq<i32> {
    match version {
        ProtocolVersion::V1_21 => seq![0i32, 1i32, 2i32, 3i32, 4i32, 5i32, 6i32, 7i32, -1i32, 8i32, 9i32, 10i32, 11i32, 12i32, 13i32, 14i32, 15i32, 16i32, 17i32, 18i32, 19i32, 20i32, 21i32, 22i32, 23i32, 24i32, -1i32, 25i32, 26i32, 27i32, 28i32, 29i32, 30i32, 31i32, 32i32, 33i32, 34i32, -1i32, 35i32, 36i32, 37i32, 38i32, -1i32, 39i32, 40i32, 41i32, 42i32, 43i32, 44i32, 45i32, 46i32],
        ProtocolVersion::V1_21_2 => seq![0i32, 1i32, 2i32, 3i32, 4i32, 5i32, 6i32, 7i32, 8i32, 9i32, 10i32, 11i32, 12i32, 13i32, 14i32, 15i32, 16i32, 17i32, 18i32, 19i32, 20i32, 21i32, 22i32, 23i32, 24i32, 25i32, 26i32, 27i32, 28i32, 29i32, 30i32, 31i32, 32i32, 33i32, 34i32, 35i32, 36i32, -1i32, 37i32, 38i32, 39i32, 40i32, -1i32, 41i32, 42i32, 43i32, 44i32, 45i32, 46i32, 47i32, 48i32],
        ProtocolVersion::V1_21_4 => seq![0i32, 1i32, 2i32, 3i32, 4i32, 5i32, 6i32, 7i32, 8i32, 9i32, 10i32, 11i32, 12i32, 13i32, 14i32, 15i32, 16i32, 17i32, 18i32, 19i32, 20i32, 21i32, 22i32, 23i32, 24i32, 25i32, 26i32, 27i32, 28i32, 29i32, 30i32, 31i32, 32i32, 33i32, 34i32, 35i32, 36i32, -1i32, 37i32, 38i32, 39i32, 40i32, -1i32, 41i32, 42i32, 43i32, 44i32, 45i32, 46i32, 47i32, 48i32],
        ProtocolVersion::V1_21_5 => seq![0i32, 1i32, 2i32, 3i32, 4i32, 5i32, 6i32, 7i32, 8i32, 9i32, 10i32, 11i32, 12i32, 13i32, 14i32, 15i32, 16i32, 17i32, 18i32, 19i32, 20i32, 21i32, 22i32, 23i32, 24i32, 25i32, 26i32, 27i32, 28i32, 29i32, 30i32, 31i32, 32i32, 33i32, 34i32, 35i32, 36i32, -1i32, 37i32, 38i32, 39i32, 40i32, -1i32, 41i32, 42i32, 43i32, 44i32, 45i32, 46i32, 47i32, 48i32],
        ProtocolVersion::V1_21_6 => seq![0i32, 1i32, 2i32, 3i32, 4i32, 5i32, 6i32, 7i32, 8i32, 9i32, 10i32, 11i32, 12i32, 13i32, 14i32, 15i32, 16i32, 17i32, 18i32, 19i32, 20i32, 21i32, 22i32, 23i32, 24i32, 25i32, 26i32, 27i32, 28i32, 29i32, 30i32, 31i32, 32i32, 33i32, 34i32, 35i32, 36i32, -1i32, 37i32, 38i32, 39i32, 40i32, -1i32, 41i32, 42i32, 43i32, 44i32, 45i32, 46i32, 47i32, 48i32],
        ProtocolVersion::V1_21_8 => seq![0i32, 1i32, 2i32, 3i32, 4i32, 5i32, 6i32, 7i32, 8i32, 9i32, 10i32, 11i32, 12i32, 13i32, 14i32, 15i32, 16i32, 17i32, 18i32, 19i32, 20i32, 21i32, 22i32, 23i32, 24i32, 25i32, 26i32, 27i32, 28i32, 29i32, 30i32, 31i32, 32i32, 33i32, 34i32, 35i32, 36i32, -1i32, 37i32, 38i32, 39i32, 40i32, -1i32, 41i32, 42i32, 43i32, 44i32, 45i32, 46i32, 47i32, 48i32],
        ProtocolVersion::V1_21_9 => seq![0i32, 1i32, 2i32, 3i32, 4i32, 5i32, 6i32, 7i32, 8i32, 9i32, 10i32, 11i32, 12i32, 13i32, 14i32, 15i32, 16i32, 17i32, 18i32, 19i32, 20i32, 21i32, 22i32, 23i32, 24i32, 25i32, 26i32, 27i32, 28i32, 29i32, 30i32, 31i32, 32i32, 33i32, 34i32, 35i32, 36i32, -1i32, 37i32, 38i32, 39i32, 40i32, -1i32, 41i32, 42i32, 43i32, 44i32, 45i32, 46i32, 47i32, 48i32],
        ProtocolVersion::V1_21_11 => seq![0i32, 1i32, 2i32, 3i32, 4i32, 5i32, 6i32, 7i32, 8i32, 9i32, 10i32, 11i32, 12i32, 13i32, 14i32, 15i32, 16i32, 17i32, 18i32, 19i32, 20i32, 21i32, 22i32, 23i32, 24i32, 25i32, 26i32, 27i32, 28i32, 29i32, 30i32, 31i32, 32i32, 33i32, 34i32, 35i32, 36i32, 37i32, 38i32, 39i32, 40i32, 41i32, -1i32, 42i32, 43i32, 44i32, 45i32, 46i32, 47i32, 48i32, 49i32],
        ProtocolVersion::V26_1 => seq![0i32, 1i32, 2i32, 3i32, 4i32, 5i32, 6i32, 7i32, 8i32, 9i32, 10i32, 11i32, 12i32, 13i32, 14i32, 15i32, 16i32, 17i32, 18i32, 19i32, 20i32, 21i32, 22i32, 23i32, 24i32, 25i32, 26i32, 27i32, 28i32, 29i32, 30i32, 31i32, 32i32, 33i32, 34i32, 35i32, 36i32, 37i32, 38i32, 39i32, 40i32, 41i32, -1i32, 42i32, 43i32, 44i32, 45i32, 46i32, 47i32, 48i32, 49i32],
        ProtocolVersion::V26_2 => seq![0i32, 1i32, 2i32, 3i32, 4i32, 5i32, 6i32, 7i32, 8i32, 9i32, 10i32, 11i32, 12i32, 13i32, 14i32, 15i32, 16i32, 17i32, 18i32, 19i32, 20i32, 21i32, 22i32, 23i32, 24i32, 25i32, 26i32, 27i32, 28i32, 29i32, 30i32, 31i32, 32i32, 33i32, 34i32, 35i32, 36i32, 37i32, 38i32, 39i32, 40i32, 41i32, 42i32, 43i32, 44i32, 45i32, 46i32, 47i32, 48i32, 49i32, 50i32],
    }
}

/// Where a kind of damage comes in the order the packs list the kinds.
pub open spec fn damage_place(kind: DamageType) -> int {
    match kind {
        DamageType::Arrow => 0,
        DamageType::BadRespawnPoint => 1,
        DamageType::Cactus => 2,
        DamageType::Campfire => 3,
        DamageType::Cramming => 4,
        DamageType::DragonBreath => 5,
        DamageType::Drown => 6,
        DamageType::DryOut => 7,
        DamageType::EnderPearl => 8,
        DamageType::Explosion => 9,
        DamageType::Fall => 10,
        DamageType::FallingAnvil => 11,
        DamageType::FallingBlock => 12,
        DamageType::FallingStalactite => 13,
        DamageType::Fireball => 14,
        DamageType::Fireworks => 15,
        DamageType::FlyIntoWall => 16,
        DamageType::Freeze => 17,
        DamageType::Generic => 18,
        DamageType::GenericKill => 19,
        DamageType::HotFloor => 20,
        DamageType::InFire => 21,
        DamageType::InWall => 22,
        DamageType::IndirectMagic => 23,
        DamageType::Lava => 24,
        DamageType::LightningBolt => 25,
        DamageType::MaceSmash => 26,
        DamageType::Magic => 27,
        DamageType::MobAttack => 28,
        DamageType::MobAttackNoAggro => 29,
        DamageType::MobProjectile => 30,
        DamageType::OnFire => 31,
        DamageType::OutOfWorld => 32,
        DamageType::OutsideBorder => 33,
        DamageType::PlayerAttack => 34,
        DamageType::PlayerExplosion => 35,
        DamageType::SonicBoom => 36,
        DamageType::Spear => 37,
        DamageType::Spit => 38,
        DamageType::Stalagmite => 39,
        DamageType::Starve => 40,
        DamageType::Sting => 41,
        DamageType::SulfurCubeHot => 42,
        DamageType::SweetBerryBush => 43,
        DamageType::Thorns => 44,
        DamageType::Thrown => 45,
        DamageType::Trident => 46,
        DamageType::UnattributedFireball => 47,
        DamageType::WindCharge => 48,
        DamageType::Wither => 49,
        DamageType::WitherSkull => 50,
    }
}

impl DamageType {
    /// The number a client speaking `version` reads this kind as, if it knows it at all.
    ///
    /// Nothing means the kind was added after that version, which is the honest answer: there
    /// is no number to send.
    pub fn wire_id(self, version: ProtocolVersion) -> (r: Option<i32>)
        ensures
            r == (if damage_table(version)[damage_place(self)] < 0 {
                None
            } else {
                Some(damage_table(version)[damage_place(self)])
            }),
    {
        let at: usize = match self {
            DamageType::Arrow => 0,
            DamageType::BadRespawnPoint => 1,
            DamageType::Cactus => 2,
            DamageType::Campfire => 3,
            DamageType::Cramming => 4,
            DamageType::DragonBreath => 5,
            DamageType::Drown => 6,
            DamageType::DryOut => 7,
            DamageType::EnderPearl => 8,
            DamageType::Explosion => 9,
            DamageType::Fall => 10,
            DamageType::FallingAnvil => 11,
            DamageType::FallingBlock => 12,
            DamageType::FallingStalactite => 13,
            DamageType::Fireball => 14,
            DamageType::Fireworks => 15,
            DamageType::FlyIntoWall => 16,
            DamageType::Freeze => 17,
            DamageType::Generic => 18,
            DamageType::GenericKill => 19,
            DamageType::HotFloor => 20,
            DamageType::InFire => 21,
            DamageType::InWall => 22,
            DamageType::IndirectMagic => 23,
            DamageType::Lava => 24,
            DamageType::LightningBolt => 25,
            DamageType::MaceSmash => 26,
            DamageType::Magic => 27,
            DamageType::MobAttack => 28,
            DamageType::MobAttackNoAggro => 29,
            DamageType::MobProjectile => 30,
            DamageType::OnFire => 31,
            DamageType::OutOfWorld => 32,
            DamageType::OutsideBorder => 33,
            DamageType::PlayerAttack => 34,
            DamageType::PlayerExplosion => 35,
            DamageType::SonicBoom => 36,
            DamageType::Spear => 37,
            DamageType::Spit => 38,
            DamageType::Stalagmite => 39,
            DamageType::Starve => 40,
            DamageType::Sting => 41,
            DamageType::SulfurCubeHot => 42,
            DamageType::SweetBerryBush => 43,
            DamageType::Thorns => 44,
            DamageType::Thrown => 45,
            DamageType::Trident => 46,
            DamageType::UnattributedFireball => 47,
            DamageType::WindCharge => 48,
            DamageType::Wither => 49,
            DamageType::WitherSkull => 50,
        };
        let row: [i32; 51] = match version {
            ProtocolVersion::V1_21 => [0i32, 1i32, 2i32, 3i32, 4i32, 5i32, 6i32, 7i32, -1i32, 8i32, 9i32, 10i32, 11i32, 12i32, 13i32, 14i32, 15i32, 16i32, 17i32, 18i32, 19i32, 20i32, 21i32, 22i32, 23i32, 24i32, -1i32, 25i32, 26i32, 27i32, 28i32, 29i32, 30i32, 31i32, 32i32, 33i32, 34i32, -1i32, 35i32, 36i32, 37i32, 38i32, -1i32, 39i32, 40i32, 41i32, 42i32, 43i32, 44i32, 45i32, 46i32],
            ProtocolVersion::V1_21_2 => [0i32, 1i32, 2i32, 3i32, 4i32, 5i32, 6i32, 7i32, 8i32, 9i32, 10i32, 11i32, 12i32, 13i32, 14i32, 15i32, 16i32, 17i32, 18i32, 19i32, 20i32, 21i32, 22i32, 23i32, 24i32, 25i32, 26i32, 27i32, 28i32, 29i32, 30i32, 31i32, 32i32, 33i32, 34i32, 35i32, 36i32, -1i32, 37i32, 38i32, 39i32, 40i32, -1i32, 41i32, 42i32, 43i32, 44i32, 45i32, 46i32, 47i32, 48i32],
            ProtocolVersion::V1_21_4 => [0i32, 1i32, 2i32, 3i32, 4i32, 5i32, 6i32, 7i32, 8i32, 9i32, 10i32, 11i32, 12i32, 13i32, 14i32, 15i32, 16i32, 17i32, 18i32, 19i32, 20i32, 21i32, 22i32, 23i32, 24i32, 25i32, 26i32, 27i32, 28i32, 29i32, 30i32, 31i32, 32i32, 33i32, 34i32, 35i32, 36i32, -1i32, 37i32, 38i32, 39i32, 40i32, -1i32, 41i32, 42i32, 43i32, 44i32, 45i32, 46i32, 47i32, 48i32],
            ProtocolVersion::V1_21_5 => [0i32, 1i32, 2i32, 3i32, 4i32, 5i32, 6i32, 7i32, 8i32, 9i32, 10i32, 11i32, 12i32, 13i32, 14i32, 15i32, 16i32, 17i32, 18i32, 19i32, 20i32, 21i32, 22i32, 23i32, 24i32, 25i32, 26i32, 27i32, 28i32, 29i32, 30i32, 31i32, 32i32, 33i32, 34i32, 35i32, 36i32, -1i32, 37i32, 38i32, 39i32, 40i32, -1i32, 41i32, 42i32, 43i32, 44i32, 45i32, 46i32, 47i32, 48i32],
            ProtocolVersion::V1_21_6 => [0i32, 1i32, 2i32, 3i32, 4i32, 5i32, 6i32, 7i32, 8i32, 9i32, 10i32, 11i32, 12i32, 13i32, 14i32, 15i32, 16i32, 17i32, 18i32, 19i32, 20i32, 21i32, 22i32, 23i32, 24i32, 25i32, 26i32, 27i32, 28i32, 29i32, 30i32, 31i32, 32i32, 33i32, 34i32, 35i32, 36i32, -1i32, 37i32, 38i32, 39i32, 40i32, -1i32, 41i32, 42i32, 43i32, 44i32, 45i32, 46i32, 47i32, 48i32],
            ProtocolVersion::V1_21_8 => [0i32, 1i32, 2i32, 3i32, 4i32, 5i32, 6i32, 7i32, 8i32, 9i32, 10i32, 11i32, 12i32, 13i32, 14i32, 15i32, 16i32, 17i32, 18i32, 19i32, 20i32, 21i32, 22i32, 23i32, 24i32, 25i32, 26i32, 27i32, 28i32, 29i32, 30i32, 31i32, 32i32, 33i32, 34i32, 35i32, 36i32, -1i32, 37i32, 38i32, 39i32, 40i32, -1i32, 41i32, 42i32, 43i32, 44i32, 45i32, 46i32, 47i32, 48i32],
            ProtocolVersion::V1_21_9 => [0i32, 1i32, 2i32, 3i32, 4i32, 5i32, 6i32, 7i32, 8i32, 9i32, 10i32, 11i32, 12i32, 13i32, 14i32, 15i32, 16i32, 17i32, 18i32, 19i32, 20i32, 21i32, 22i32, 23i32, 24i32, 25i32, 26i32, 27i32, 28i32, 29i32, 30i32, 31i32, 32i32, 33i32, 34i32, 35i32, 36i32, -1i32, 37i32, 38i32, 39i32, 40i32, -1i32, 41i32, 42i32, 43i32, 44i32, 45i32, 46i32, 47i32, 48i32],
            ProtocolVersion::V1_21_11 => [0i32, 1i32, 2i32, 3i32, 4i32, 5i32, 6i32, 7i32, 8i32, 9i32, 10i32, 11i32, 12i32, 13i32, 14i32, 15i32, 16i32, 17i32, 18i32, 19i32, 20i32, 21i32, 22i32, 23i32, 24i32, 25i32, 26i32, 27i32, 28i32, 29i32, 30i32, 31i32, 32i32, 33i32, 34i32, 35i32, 36i32, 37i32, 38i32, 39i32, 40i32, 41i32, -1i32, 42i32, 43i32, 44i32, 45i32, 46i32, 47i32, 48i32, 49i32],
            ProtocolVersion::V26_1 => [0i32, 1i32, 2i32, 3i32, 4i32, 5i32, 6i32, 7i32, 8i32, 9i32, 10i32, 11i32, 12i32, 13i32, 14i32, 15i32, 16i32, 17i32, 18i32, 19i32, 20i32, 21i32, 22i32, 23i32, 24i32, 25i32, 26i32, 27i32, 28i32, 29i32, 30i32, 31i32, 32i32, 33i32, 34i32, 35i32, 36i32, 37i32, 38i32, 39i32, 40i32, 41i32, -1i32, 42i32, 43i32, 44i32, 45i32, 46i32, 47i32, 48i32, 49i32],
            ProtocolVersion::V26_2 => [0i32, 1i32, 2i32, 3i32, 4i32, 5i32, 6i32, 7i32, 8i32, 9i32, 10i32, 11i32, 12i32, 13i32, 14i32, 15i32, 16i32, 17i32, 18i32, 19i32, 20i32, 21i32, 22i32, 23i32, 24i32, 25i32, 26i32, 27i32, 28i32, 29i32, 30i32, 31i32, 32i32, 33i32, 34i32, 35i32, 36i32, 37i32, 38i32, 39i32, 40i32, 41i32, 42i32, 43i32, 44i32, 45i32, 46i32, 47i32, 48i32, 49i32, 50i32],
        };
        assert(row@ =~= damage_table(version));
        let number = row[at];
        if number < 0 {
            None
        } else {
            Some(number)
        }
    }
}


/// Whether each number a table gives from place `i` on, passing over its gaps, fits in sixteen
/// bits and is higher than `last` and than every one before it.
pub open spec fn rises_from(t: Seq<i32>, i: int, last: int) -> bool
    decreases t.len() - i,
{
    if i < 0 || i >= t.len() {
        true
    } else if t[i] < 0 {
        rises_from(t, i + 1, last)
    } else {
        t[i] > last && t[i] < 0x1_0000 && rises_from(t, i + 1, t[i] as int)
    }
}

proof fn lemma_components_rise_v1_21()
    ensures
        rises_from(component_table(ProtocolVersion::V1_21), 0, -1),
{
    let t = component_table(ProtocolVersion::V1_21);
    assert(rises_from(t, 111, 56));
    assert(rises_from(t, 110, 56));
    assert(rises_from(t, 109, 56));
    assert(rises_from(t, 108, 56));
    assert(rises_from(t, 107, 56));
    assert(rises_from(t, 106, 56));
    assert(rises_from(t, 105, 56));
    assert(rises_from(t, 104, 56));
    assert(rises_from(t, 103, 56));
    assert(rises_from(t, 102, 56));
    assert(rises_from(t, 101, 56));
    assert(rises_from(t, 100, 56));
    assert(rises_from(t, 99, 56));
    assert(rises_from(t, 98, 56));
    assert(rises_from(t, 97, 56));
    assert(rises_from(t, 96, 56));
    assert(rises_from(t, 95, 56));
    assert(rises_from(t, 94, 56));
    assert(rises_from(t, 93, 56));
    assert(rises_from(t, 92, 56));
    assert(rises_from(t, 91, 56));
    assert(rises_from(t, 90, 56));
    assert(rises_from(t, 89, 56));
    assert(rises_from(t, 88, 56));
    assert(rises_from(t, 87, 56));
    assert(rises_from(t, 86, 56));
    assert(rises_from(t, 85, 56));
    assert(rises_from(t, 84, 56));
    assert(rises_from(t, 83, 56));
    assert(rises_from(t, 82, 56));
    assert(rises_from(t, 81, 56));
    assert(rises_from(t, 80, 55));
    assert(rises_from(t, 79, 54));
    assert(rises_from(t, 78, 54));
    assert(rises_from(t, 77, 53));
    assert(rises_from(t, 76, 52));
    assert(rises_from(t, 75, 51));
    assert(rises_from(t, 74, 50));
    assert(rises_from(t, 73, 49));
    assert(rises_from(t, 72, 48));
    assert(rises_from(t, 71, 47));
    assert(rises_from(t, 70, 46));
    assert(rises_from(t, 69, 45));
    assert(rises_from(t, 68, 44));
    assert(rises_from(t, 67, 43));
    assert(rises_from(t, 66, 42));
    assert(rises_from(t, 65, 42));
    assert(rises_from(t, 64, 41));
    assert(rises_from(t, 63, 40));
    assert(rises_from(t, 62, 40));
    assert(rises_from(t, 61, 39));
    assert(rises_from(t, 60, 38));
    assert(rises_from(t, 59, 37));
    assert(rises_from(t, 58, 36));
    assert(rises_from(t, 57, 35));
    assert(rises_from(t, 56, 34));
    assert(rises_from(t, 55, 33));
    assert(rises_from(t, 54, 32));
    assert(rises_from(t, 53, 31));
    assert(rises_from(t, 52, 31));
    assert(rises_from(t, 51, 30));
    assert(rises_from(t, 50, 29));
    assert(rises_from(t, 49, 28));
    assert(rises_from(t, 48, 27));
    assert(rises_from(t, 47, 26));
    assert(rises_from(t, 46, 25));
    assert(rises_from(t, 45, 24));
    assert(rises_from(t, 44, 23));
    assert(rises_from(t, 43, 23));
    assert(rises_from(t, 42, 22));
    assert(rises_from(t, 41, 22));
    assert(rises_from(t, 40, 22));
    assert(rises_from(t, 39, 22));
    assert(rises_from(t, 38, 22));
    assert(rises_from(t, 37, 22));
    assert(rises_from(t, 36, 22));
    assert(rises_from(t, 35, 22));
    assert(rises_from(t, 34, 22));
    assert(rises_from(t, 33, 22));
    assert(rises_from(t, 32, 22));
    assert(rises_from(t, 31, 22));
    assert(rises_from(t, 30, 22));
    assert(rises_from(t, 29, 22));
    assert(rises_from(t, 28, 20));
    assert(rises_from(t, 27, 20));
    assert(rises_from(t, 26, 20));
    assert(rises_from(t, 25, 20));
    assert(rises_from(t, 24, 20));
    assert(rises_from(t, 23, 19));
    assert(rises_from(t, 22, 18));
    assert(rises_from(t, 21, 17));
    assert(rises_from(t, 20, 16));
    assert(rises_from(t, 19, 13));
    assert(rises_from(t, 18, 13));
    assert(rises_from(t, 17, 12));
    assert(rises_from(t, 16, 11));
    assert(rises_from(t, 15, 10));
    assert(rises_from(t, 14, 9));
    assert(rises_from(t, 13, 8));
    assert(rises_from(t, 12, 7));
    assert(rises_from(t, 11, 6));
    assert(rises_from(t, 10, 6));
    assert(rises_from(t, 9, 5));
    assert(rises_from(t, 8, 5));
    assert(rises_from(t, 7, 5));
    assert(rises_from(t, 6, 4));
    assert(rises_from(t, 5, 4));
    assert(rises_from(t, 4, 3));
    assert(rises_from(t, 3, 2));
    assert(rises_from(t, 2, 1));
    assert(rises_from(t, 1, 0));
    assert(rises_from(t, 0, -1));
}

proof fn lemma_components_rise_v1_21_2()
    ensures
        rises_from(component_table(ProtocolVersion::V1_21_2), 0, -1),
{
    let t = component_table(ProtocolVersion::V1_21_2);
    assert(rises_from(t, 111, 66));
    assert(rises_from(t, 110, 66));
    assert(rises_from(t, 109, 66));
    assert(rises_from(t, 108, 66));
    assert(rises_from(t, 107, 66));
    assert(rises_from(t, 106, 66));
    assert(rises_from(t, 105, 66));
    assert(rises_from(t, 104, 66));
    assert(rises_from(t, 103, 66));
    assert(rises_from(t, 102, 66));
    assert(rises_from(t, 101, 66));
    assert(rises_from(t, 100, 66));
    assert(rises_from(t, 99, 66));
    assert(rises_from(t, 98, 66));
    assert(rises_from(t, 97, 66));
    assert(rises_from(t, 96, 66));
    assert(rises_from(t, 95, 66));
    assert(rises_from(t, 94, 66));
    assert(rises_from(t, 93, 66));
    assert(rises_from(t, 92, 66));
    assert(rises_from(t, 91, 66));
    assert(rises_from(t, 90, 66));
    assert(rises_from(t, 89, 66));
    assert(rises_from(t, 88, 66));
    assert(rises_from(t, 87, 66));
    assert(rises_from(t, 86, 66));
    assert(rises_from(t, 85, 66));
    assert(rises_from(t, 84, 66));
    assert(rises_from(t, 83, 66));
    assert(rises_from(t, 82, 66));
    assert(rises_from(t, 81, 66));
    assert(rises_from(t, 80, 65));
    assert(rises_from(t, 79, 64));
    assert(rises_from(t, 78, 64));
    assert(rises_from(t, 77, 63));
    assert(rises_from(t, 76, 62));
    assert(rises_from(t, 75, 61));
    assert(rises_from(t, 74, 60));
    assert(rises_from(t, 73, 59));
    assert(rises_from(t, 72, 58));
    assert(rises_from(t, 71, 57));
    assert(rises_from(t, 70, 56));
    assert(rises_from(t, 69, 55));
    assert(rises_from(t, 68, 54));
    assert(rises_from(t, 67, 53));
    assert(rises_from(t, 66, 52));
    assert(rises_from(t, 65, 52));
    assert(rises_from(t, 64, 51));
    assert(rises_from(t, 63, 50));
    assert(rises_from(t, 62, 50));
    assert(rises_from(t, 61, 49));
    assert(rises_from(t, 60, 48));
    assert(rises_from(t, 59, 47));
    assert(rises_from(t, 58, 46));
    assert(rises_from(t, 57, 45));
    assert(rises_from(t, 56, 44));
    assert(rises_from(t, 55, 43));
    assert(rises_from(t, 54, 42));
    assert(rises_from(t, 53, 41));
    assert(rises_from(t, 52, 41));
    assert(rises_from(t, 51, 40));
    assert(rises_from(t, 50, 39));
    assert(rises_from(t, 49, 38));
    assert(rises_from(t, 48, 37));
    assert(rises_from(t, 47, 36));
    assert(rises_from(t, 46, 35));
    assert(rises_from(t, 45, 34));
    assert(rises_from(t, 44, 33));
    assert(rises_from(t, 43, 33));
    assert(rises_from(t, 42, 32));
    assert(rises_from(t, 41, 32));
    assert(rises_from(t, 40, 32));
    assert(rises_from(t, 39, 32));
    assert(rises_from(t, 38, 32));
    assert(rises_from(t, 37, 32));
    assert(rises_from(t, 36, 31));
    assert(rises_from(t, 35, 30));
    assert(rises_from(t, 34, 29));
    assert(rises_from(t, 33, 28));
    assert(rises_from(t, 32, 27));
    assert(rises_from(t, 31, 26));
    assert(rises_from(t, 30, 26));
    assert(rises_from(t, 29, 26));
    assert(rises_from(t, 28, 25));
    assert(rises_from(t, 27, 24));
    assert(rises_from(t, 26, 23));
    assert(rises_from(t, 25, 22));
    assert(rises_from(t, 24, 21));
    assert(rises_from(t, 23, 20));
    assert(rises_from(t, 22, 19));
    assert(rises_from(t, 21, 18));
    assert(rises_from(t, 20, 17));
    assert(rises_from(t, 19, 14));
    assert(rises_from(t, 18, 14));
    assert(rises_from(t, 17, 13));
    assert(rises_from(t, 16, 12));
    assert(rises_from(t, 15, 11));
    assert(rises_from(t, 14, 10));
    assert(rises_from(t, 13, 9));
    assert(rises_from(t, 12, 8));
    assert(rises_from(t, 11, 7));
    assert(rises_from(t, 10, 6));
    assert(rises_from(t, 9, 5));
    assert(rises_from(t, 8, 5));
    assert(rises_from(t, 7, 5));
    assert(rises_from(t, 6, 4));
    assert(rises_from(t, 5, 4));
    assert(rises_from(t, 4, 3));
    assert(rises_from(t, 3, 2));
    assert(rises_from(t, 2, 1));
    assert(rises_from(t, 1, 0));
    assert(rises_from(t, 0, -1));
}

proof fn lemma_components_rise_v1_21_4()
    ensures
        rises_from(component_table(ProtocolVersion::V1_21_4), 0, -1),
{
    let t = component_table(ProtocolVersion::V1_21_4);
    assert(rises_from(t, 111, 66));
    assert(rises_from(t, 110, 66));
    assert(rises_from(t, 109, 66));
    assert(rises_from(t, 108, 66));
    assert(rises_from(t, 107, 66));
    assert(rises_from(t, 106, 66));
    assert(rises_from(t, 105, 66));
    assert(rises_from(t, 104, 66));
    assert(rises_from(t, 103, 66));
    assert(rises_from(t, 102, 66));
    assert(rises_from(t, 101, 66));
    assert(rises_from(t, 100, 66));
    assert(rises_from(t, 99, 66));
    assert(rises_from(t, 98, 66));
    assert(rises_from(t, 97, 66));
    assert(rises_from(t, 96, 66));
    assert(rises_from(t, 95, 66));
    assert(rises_from(t, 94, 66));
    assert(rises_from(t, 93, 66));
    assert(rises_from(t, 92, 66));
    assert(rises_from(t, 91, 66));
    assert(rises_from(t, 90, 66));
    assert(rises_from(t, 89, 66));
    assert(rises_from(t, 88, 66));
    assert(rises_from(t, 87, 66));
    assert(rises_from(t, 86, 66));
    assert(rises_from(t, 85, 66));
    assert(rises_from(t, 84, 66));
    assert(rises_from(t, 83, 66));
    assert(rises_from(t, 82, 66));
    assert(rises_from(t, 81, 66));
    assert(rises_from(t, 80, 65));
    assert(rises_from(t, 79, 64));
    assert(rises_from(t, 78, 64));
    assert(rises_from(t, 77, 63));
    assert(rises_from(t, 76, 62));
    assert(rises_from(t, 75, 61));
    assert(rises_from(t, 74, 60));
    assert(rises_from(t, 73, 59));
    assert(rises_from(t, 72, 58));
    assert(rises_from(t, 71, 57));
    assert(rises_from(t, 70, 56));
    assert(rises_from(t, 69, 55));
    assert(rises_from(t, 68, 54));
    assert(rises_from(t, 67, 53));
    assert(rises_from(t, 66, 52));
    assert(rises_from(t, 65, 52));
    assert(rises_from(t, 64, 51));
    assert(rises_from(t, 63, 50));
    assert(rises_from(t, 62, 50));
    assert(rises_from(t, 61, 49));
    assert(rises_from(t, 60, 48));
    assert(rises_from(t, 59, 47));
    assert(rises_from(t, 58, 46));
    assert(rises_from(t, 57, 45));
    assert(rises_from(t, 56, 44));
    assert(rises_from(t, 55, 43));
    assert(rises_from(t, 54, 42));
    assert(rises_from(t, 53, 41));
    assert(rises_from(t, 52, 41));
    assert(rises_from(t, 51, 40));
    assert(rises_from(t, 50, 39));
    assert(rises_from(t, 49, 38));
    assert(rises_from(t, 48, 37));
    assert(rises_from(t, 47, 36));
    assert(rises_from(t, 46, 35));
    assert(rises_from(t, 45, 34));
    assert(rises_from(t, 44, 33));
    assert(rises_from(t, 43, 33));
    assert(rises_from(t, 42, 32));
    assert(rises_from(t, 41, 32));
    assert(rises_from(t, 40, 32));
    assert(rises_from(t, 39, 32));
    assert(rises_from(t, 38, 32));
    assert(rises_from(t, 37, 32));
    assert(rises_from(t, 36, 31));
    assert(rises_from(t, 35, 30));
    assert(rises_from(t, 34, 29));
    assert(rises_from(t, 33, 28));
    assert(rises_from(t, 32, 27));
    assert(rises_from(t, 31, 26));
    assert(rises_from(t, 30, 26));
    assert(rises_from(t, 29, 26));
    assert(rises_from(t, 28, 25));
    assert(rises_from(t, 27, 24));
    assert(rises_from(t, 26, 23));
    assert(rises_from(t, 25, 22));
    assert(rises_from(t, 24, 21));
    assert(rises_from(t, 23, 20));
    assert(rises_from(t, 22, 19));
    assert(rises_from(t, 21, 18));
    assert(rises_from(t, 20, 17));
    assert(rises_from(t, 19, 14));
    assert(rises_from(t, 18, 14));
    assert(rises_from(t, 17, 13));
    assert(rises_from(t, 16, 12));
    assert(rises_from(t, 15, 11));
    assert(rises_from(t, 14, 10));
    assert(rises_from(t, 13, 9));
    assert(rises_from(t, 12, 8));
    assert(rises_from(t, 11, 7));
    assert(rises_from(t, 10, 6));
    assert(rises_from(t, 9, 5));
    assert(rises_from(t, 8, 5));
    assert(rises_from(t, 7, 5));
    assert(rises_from(t, 6, 4));
    assert(rises_from(t, 5, 4));
    assert(rises_from(t, 4, 3));
    assert(rises_from(t, 3, 2));
    assert(rises_from(t, 2, 1));
    assert(rises_from(t, 1, 0));
    assert(rises_from(t, 0, -1));
}

proof fn lemma_components_rise_v1_21_5()
    ensures
        rises_from(component_table(ProtocolVersion::V1_21_5), 0, -1),
{
    let t = component_table(ProtocolVersion::V1_21_5);
    assert(rises_from(t, 111, 95));
    assert(rises_from(t, 110, 94));
    assert(rises_from(t, 109, 93));
    assert(rises_from(t, 108, 92));
    assert(rises_from(t, 107, 92));
    assert(rises_from(t, 106, 91));
    assert(rises_from(t, 105, 90));
    assert(rises_from(t, 104, 89));
    assert(rises_from(t, 103, 88));
    assert(rises_from(t, 102, 87));
    assert(rises_from(t, 101, 86));
    assert(rises_from(t, 100, 86));
    assert(rises_from(t, 99, 86));
    assert(rises_from(t, 98, 85));
    assert(rises_from(t, 97, 85));
    assert(rises_from(t, 96, 84));
    assert(rises_from(t, 95, 84));
    assert(rises_from(t, 94, 83));
    assert(rises_from(t, 93, 82));
    assert(rises_from(t, 92, 81));
    assert(rises_from(t, 91, 80));
    assert(rises_from(t, 90, 79));
    assert(rises_from(t, 89, 78));
    assert(rises_from(t, 88, 77));
    assert(rises_from(t, 87, 76));
    assert(rises_from(t, 86, 75));
    assert(rises_from(t, 85, 74));
    assert(rises_from(t, 84, 73));
    assert(rises_from(t, 83, 72));
    assert(rises_from(t, 82, 71));
    assert(rises_from(t, 81, 70));
    assert(rises_from(t, 80, 69));
    assert(rises_from(t, 79, 68));
    assert(rises_from(t, 78, 68));
    assert(rises_from(t, 77, 67));
    assert(rises_from(t, 76, 66));
    assert(rises_from(t, 75, 65));
    assert(rises_from(t, 74, 64));
    assert(rises_from(t, 73, 63));
    assert(rises_from(t, 72, 62));
    assert(rises_from(t, 71, 61));
    assert(rises_from(t, 70, 60));
    assert(rises_from(t, 69, 59));
    assert(rises_from(t, 68, 58));
    assert(rises_from(t, 67, 57));
    assert(rises_from(t, 66, 56));
    assert(rises_from(t, 65, 55));
    assert(rises_from(t, 64, 54));
    assert(rises_from(t, 63, 53));
    assert(rises_from(t, 62, 52));
    assert(rises_from(t, 61, 51));
    assert(rises_from(t, 60, 50));
    assert(rises_from(t, 59, 49));
    assert(rises_from(t, 58, 48));
    assert(rises_from(t, 57, 47));
    assert(rises_from(t, 56, 46));
    assert(rises_from(t, 55, 45));
    assert(rises_from(t, 54, 44));
    assert(rises_from(t, 53, 43));
    assert(rises_from(t, 52, 42));
    assert(rises_from(t, 51, 41));
    assert(rises_from(t, 50, 40));
    assert(rises_from(t, 49, 39));
    assert(rises_from(t, 48, 38));
    assert(rises_from(t, 47, 37));
    assert(rises_from(t, 46, 36));
    assert(rises_from(t, 45, 35));
    assert(rises_from(t, 44, 34));
    assert(rises_from(t, 43, 34));
    assert(rises_from(t, 42, 33));
    assert(rises_from(t, 41, 33));
    assert(rises_from(t, 40, 33));
    assert(rises_from(t, 39, 33));
    assert(rises_from(t, 38, 33));
    assert(rises_from(t, 37, 32));
    assert(rises_from(t, 36, 31));
    assert(rises_from(t, 35, 30));
    assert(rises_from(t, 34, 29));
    assert(rises_from(t, 33, 28));
    assert(rises_from(t, 32, 27));
    assert(rises_from(t, 31, 26));
    assert(rises_from(t, 30, 26));
    assert(rises_from(t, 29, 25));
    assert(rises_from(t, 28, 24));
    assert(rises_from(t, 27, 23));
    assert(rises_from(t, 26, 22));
    assert(rises_from(t, 25, 21));
    assert(rises_from(t, 24, 20));
    assert(rises_from(t, 23, 19));
    assert(rises_from(t, 22, 18));
    assert(rises_from(t, 21, 17));
    assert(rises_from(t, 20, 16));
    assert(rises_from(t, 19, 15));
    assert(rises_from(t, 18, 14));
    assert(rises_from(t, 17, 13));
    assert(rises_from(t, 16, 12));
    assert(rises_from(t, 15, 11));
    assert(rises_from(t, 14, 10));
    assert(rises_from(t, 13, 9));
    assert(rises_from(t, 12, 8));
    assert(rises_from(t, 11, 7));
    assert(rises_from(t, 10, 6));
    assert(rises_from(t, 9, 5));
    assert(rises_from(t, 8, 5));
    assert(rises_from(t, 7, 5));
    assert(rises_from(t, 6, 4));
    assert(rises_from(t, 5, 4));
    assert(rises_from(t, 4, 3));
    assert(rises_from(t, 3, 2));
    assert(rises_from(t, 2, 1));
    assert(rises_from(t, 1, 0));
    assert(rises_from(t, 0, -1));
}

proof fn lemma_components_rise_v1_21_6()
    ensures
        rises_from(component_table(ProtocolVersion::V1_21_6), 0, -1),
{
    let t = component_table(ProtocolVersion::V1_21_6);
    assert(rises_from(t, 111, 95));
    assert(rises_from(t, 110, 94));
    assert(rises_from(t, 109, 93));
    assert(rises_from(t, 108, 92));
    assert(rises_from(t, 107, 92));
    assert(rises_from(t, 106, 91));
    assert(rises_from(t, 105, 90));
    assert(rises_from(t, 104, 89));
    assert(rises_from(t, 103, 88));
    assert(rises_from(t, 102, 87));
    assert(rises_from(t, 101, 86));
    assert(rises_from(t, 100, 86));
    assert(rises_from(t, 99, 86));
    assert(rises_from(t, 98, 85));
    assert(rises_from(t, 97, 85));
    assert(rises_from(t, 96, 84));
    assert(rises_from(t, 95, 84));
    assert(rises_from(t, 94, 83));
    assert(rises_from(t, 93, 82));
    assert(rises_from(t, 92, 81));
    assert(rises_from(t, 91, 80));
    assert(rises_from(t, 90, 79));
    assert(rises_from(t, 89, 78));
    assert(rises_from(t, 88, 77));
    assert(rises_from(t, 87, 76));
    assert(rises_from(t, 86, 75));
    assert(rises_from(t, 85, 74));
    assert(rises_from(t, 84, 73));
    assert(rises_from(t, 83, 72));
    assert(rises_from(t, 82, 71));
    assert(rises_from(t, 81, 70));
    assert(rises_from(t, 80, 69));
    assert(rises_from(t, 79, 68));
    assert(rises_from(t, 78, 68));
    assert(rises_from(t, 77, 67));
    assert(rises_from(t, 76, 66));
    assert(rises_from(t, 75, 65));
    assert(rises_from(t, 74, 64));
    assert(rises_from(t, 73, 63));
    assert(rises_from(t, 72, 62));
    assert(rises_from(t, 71, 61));
    assert(rises_from(t, 70, 60));
    assert(rises_from(t, 69, 59));
    assert(rises_from(t, 68, 58));
    assert(rises_from(t, 67, 57));
    assert(rises_from(t, 66, 56));
    assert(rises_from(t, 65, 55));
    assert(rises_from(t, 64, 54));
    assert(rises_from(t, 63, 53));
    assert(rises_from(t, 62, 52));
    assert(rises_from(t, 61, 51));
    assert(rises_from(t, 60, 50));
    assert(rises_from(t, 59, 49));
    assert(rises_from(t, 58, 48));
    assert(rises_from(t, 57, 47));
    assert(rises_from(t, 56, 46));
    assert(rises_from(t, 55, 45));
    assert(rises_from(t, 54, 44));
    assert(rises_from(t, 53, 43));
    assert(rises_from(t, 52, 42));
    assert(rises_from(t, 51, 41));
    assert(rises_from(t, 50, 40));
    assert(rises_from(t, 49, 39));
    assert(rises_from(t, 48, 38));
    assert(rises_from(t, 47, 37));
    assert(rises_from(t, 46, 36));
    assert(rises_from(t, 45, 35));
    assert(rises_from(t, 44, 34));
    assert(rises_from(t, 43, 34));
    assert(rises_from(t, 42, 33));
    assert(rises_from(t, 41, 33));
    assert(rises_from(t, 40, 33));
    assert(rises_from(t, 39, 33));
    assert(rises_from(t, 38, 33));
    assert(rises_from(t, 37, 32));
    assert(rises_from(t, 36, 31));
    assert(rises_from(t, 35, 30));
    assert(rises_from(t, 34, 29));
    assert(rises_from(t, 33, 28));
    assert(rises_from(t, 32, 27));
    assert(rises_from(t, 31, 26));
    assert(rises_from(t, 30, 26));
    assert(rises_from(t, 29, 25));
    assert(rises_from(t, 28, 24));
    assert(rises_from(t, 27, 23));
    assert(rises_from(t, 26, 22));
    assert(rises_from(t, 25, 21));
    assert(rises_from(t, 24, 20));
    assert(rises_from(t, 23, 19));
    assert(rises_from(t, 22, 18));
    assert(rises_from(t, 21, 17));
    assert(rises_from(t, 20, 16));
    assert(rises_from(t, 19, 15));
    assert(rises_from(t, 18, 14));
    assert(rises_from(t, 17, 13));
    assert(rises_from(t, 16, 12));
    assert(rises_from(t, 15, 11));
    assert(rises_from(t, 14, 10));
    assert(rises_from(t, 13, 9));
    assert(rises_from(t, 12, 8));
    assert(rises_from(t, 11, 7));
    assert(rises_from(t, 10, 6));
    assert(rises_from(t, 9, 5));
    assert(rises_from(t, 8, 5));
    assert(rises_from(t, 7, 5));
    assert(rises_from(t, 6, 4));
    assert(rises_from(t, 5, 4));
    assert(rises_from(t, 4, 3));
    assert(rises_from(t, 3, 2));
    assert(rises_from(t, 2, 1));
    assert(rises_from(t, 1, 0));
    assert(rises_from(t, 0, -1));
}

proof fn lemma_components_rise_v1_21_8()
    ensures
        rises_from(component_table(ProtocolVersion::V1_21_8), 0, -1),
{
    let t = component_table(ProtocolVersion::V1_21_8);
    assert(rises_from(t, 111, 95));
    assert(rises_from(t, 110, 94));
    assert(rises_from(t, 109, 93));
    assert(rises_from(t, 108, 92));
    assert(rises_from(t, 107, 92));
    assert(rises_from(t, 106, 91));
    assert(rises_from(t, 105, 90));
    assert(rises_from(t, 104, 89));
    assert(rises_from(t, 103, 88));
    assert(rises_from(t, 102, 87));
    assert(rises_from(t, 101, 86));
    assert(rises_from(t, 100, 86));
    assert(rises_from(t, 99, 86));
    assert(rises_from(t, 98, 85));
    assert(rises_from(t, 97, 85));
    assert(rises_from(t, 96, 84));
    assert(rises_from(t, 95, 84));
    assert(rises_from(t, 94, 83));
    assert(rises_from(t, 93, 82));
    assert(rises_from(t, 92, 81));
    assert(rises_from(t, 91, 80));
    assert(rises_from(t, 90, 79));
    assert(rises_from(t, 89, 78));
    assert(rises_from(t, 88, 77));
    assert(rises_from(t, 87, 76));
    assert(rises_from(t, 86, 75));
    assert(rises_from(t, 85, 74));
    assert(rises_from(t, 84, 73));
    assert(rises_from(t, 83, 72));
    assert(rises_from(t, 82, 71));
    assert(rises_from(t, 81, 70));
    assert(rises_from(t, 80, 69));
    assert(rises_from(t, 79, 68));
    assert(rises_from(t, 78, 68));
    assert(rises_from(t, 77, 67));
    assert(rises_from(t, 76, 66));
    assert(rises_from(t, 75, 65));
    assert(rises_from(t, 74, 64));
    assert(rises_from(t, 73, 63));
    assert(rises_from(t, 72, 62));
    assert(rises_from(t, 71, 61));
    assert(rises_from(t, 70, 60));
    assert(rises_from(t, 69, 59));
    assert(rises_from(t, 68, 58));
    assert(rises_from(t, 67, 57));
    assert(rises_from(t, 66, 56));
    assert(rises_from(t, 65, 55));
    assert(rises_from(t, 64, 54));
    assert(rises_from(t, 63, 53));
    assert(rises_from(t, 62, 52));
    assert(rises_from(t, 61, 51));
    assert(rises_from(t, 60, 50));
    assert(rises_from(t, 59, 49));
    assert(rises_from(t, 58, 48));
    assert(rises_from(t, 57, 47));
    assert(rises_from(t, 56, 46));
    assert(rises_from(t, 55, 45));
    assert(rises_from(t, 54, 44));
    assert(rises_from(t, 53, 43));
    assert(rises_from(t, 52, 42));
    assert(rises_from(t, 51, 41));
    assert(rises_from(t, 50, 40));
    assert(rises_from(t, 49, 39));
    assert(rises_from(t, 48, 38));
    assert(rises_from(t, 47, 37));
    assert(rises_from(t, 46, 36));
    assert(rises_from(t, 45, 35));
    assert(rises_from(t, 44, 34));
    assert(rises_from(t, 43, 34));
    assert(rises_from(t, 42, 33));
    assert(rises_from(t, 41, 33));
    assert(rises_from(t, 40, 33));
    assert(rises_from(t, 39, 33));
    assert(rises_from(t, 38, 33));
    assert(rises_from(t, 37, 32));
    assert(rises_from(t, 36, 31));
    assert(rises_from(t, 35, 30));
    assert(rises_from(t, 34, 29));
    assert(rises_from(t, 33, 28));
    assert(rises_from(t, 32, 27));
    assert(rises_from(t, 31, 26));
    assert(rises_from(t, 30, 26));
    assert(rises_from(t, 29, 25));
    assert(rises_from(t, 28, 24));
    assert(rises_from(t, 27, 23));
    assert(rises_from(t, 26, 22));
    assert(rises_from(t, 25, 21));
    assert(rises_from(t, 24, 20));
    assert(rises_from(t, 23, 19));
    assert(rises_from(t, 22, 18));
    assert(rises_from(t, 21, 17));
    assert(rises_from(t, 20, 16));
    assert(rises_from(t, 19, 15));
    assert(rises_from(t, 18, 14));
    assert(rises_from(t, 17, 13));
    assert(rises_from(t, 16, 12));
    assert(rises_from(t, 15, 11));
    assert(rises_from(t, 14, 10));
    assert(rises_from(t, 13, 9));
    assert(rises_from(t, 12, 8));
    assert(rises_from(t, 11, 7));
    assert(rises_from(t, 10, 6));
    assert(rises_from(t, 9, 5));
    assert(rises_from(t, 8, 5));
    assert(rises_from(t, 7, 5));
    assert(rises_from(t, 6, 4));
    assert(rises_from(t, 5, 4));
    assert(rises_from(t, 4, 3));
    assert(rises_from(t, 3, 2));
    assert(rises_from(t, 2, 1));
    assert(rises_from(t, 1, 0));
    assert(rises_from(t, 0, -1));
}

proof fn lemma_components_rise_v1_21_9()
    ensures
        rises_from(component_table(ProtocolVersion::V1_21_9), 0, -1),
{
    let t = component_table(ProtocolVersion::V1_21_9);
    assert(rises_from(t, 111, 95));
    assert(rises_from(t, 110, 94));
    assert(rises_from(t, 109, 93));
    assert(rises_from(t, 108, 92));
    assert(rises_from(t, 107, 92));
    assert(rises_from(t, 106, 91));
    assert(rises_from(t, 105, 90));
    assert(rises_from(t, 104, 89));
    assert(rises_from(t, 103, 88));
    assert(rises_from(t, 102, 87));
    assert(rises_from(t, 101, 86));
    assert(rises_from(t, 100, 86));
    assert(rises_from(t, 99, 86));
    assert(rises_from(t, 98, 85));
    assert(rises_from(t, 97, 85));
    assert(rises_from(t, 96, 84));
    assert(rises_from(t, 95, 84));
    assert(rises_from(t, 94, 83));
    assert(rises_from(t, 93, 82));
    assert(rises_from(t, 92, 81));
    assert(rises_from(t, 91, 80));
    assert(rises_from(t, 90, 79));
    assert(rises_from(t, 89, 78));
    assert(rises_from(t, 88, 77));
    assert(rises_from(t, 87, 76));
    assert(rises_from(t, 86, 75));
    assert(rises_from(t, 85, 74));
    assert(rises_from(t, 84, 73));
    assert(rises_from(t, 83, 72));
    assert(rises_from(t, 82, 71));
    assert(rises_from(t, 81, 70));
    assert(rises_from(t, 80, 69));
    assert(rises_from(t, 79, 68));
    assert(rises_from(t, 78, 68));
    assert(rises_from(t, 77, 67));
    assert(rises_from(t, 76, 66));
    assert(rises_from(t, 75, 65));
    assert(rises_from(t, 74, 64));
    assert(rises_from(t, 73, 63));
    assert(rises_from(t, 72, 62));
    assert(rises_from(t, 71, 61));
    assert(rises_from(t, 70, 60));
    assert(rises_from(t, 69, 59));
    assert(rises_from(t, 68, 58));
    assert(rises_from(t, 67, 57));
    assert(rises_from(t, 66, 56));
    assert(rises_from(t, 65, 55));
    assert(rises_from(t, 64, 54));
    assert(rises_from(t, 63, 53));
    assert(rises_from(t, 62, 52));
    assert(rises_from(t, 61, 51));
    assert(rises_from(t, 60, 50));
    assert(rises_from(t, 59, 49));
    assert(rises_from(t, 58, 48));
    assert(rises_from(t, 57, 47));
    assert(rises_from(t, 56, 46));
    assert(rises_from(t, 55, 45));
    assert(rises_from(t, 54, 44));
    assert(rises_from(t, 53, 43));
    assert(rises_from(t, 52, 42));
    assert(rises_from(t, 51, 41));
    assert(rises_from(t, 50, 40));
    assert(rises_from(t, 49, 39));
    assert(rises_from(t, 48, 38));
    assert(rises_from(t, 47, 37));
    assert(rises_from(t, 46, 36));
    assert(rises_from(t, 45, 35));
    assert(rises_from(t, 44, 34));
    assert(rises_from(t, 43, 34));
    assert(rises_from(t, 42, 33));
    assert(rises_from(t, 41, 33));
    assert(rises_from(t, 40, 33));
    assert(rises_from(t, 39, 33));
    assert(rises_from(t, 38, 33));
    assert(rises_from(t, 37, 32));
    assert(rises_from(t, 36, 31));
    assert(rises_from(t, 35, 30));
    assert(rises_from(t, 34, 29));
    assert(rises_from(t, 33, 28));
    assert(rises_from(t, 32, 27));
    assert(rises_from(t, 31, 26));
    assert(rises_from(t, 30, 26));
    assert(rises_from(t, 29, 25));
    assert(rises_from(t, 28, 24));
    assert(rises_from(t, 27, 23));
    assert(rises_from(t, 26, 22));
    assert(rises_from(t, 25, 21));
    assert(rises_from(t, 24, 20));
    assert(rises_from(t, 23, 19));
    assert(rises_from(t, 22, 18));
    assert(rises_from(t, 21, 17));
    assert(rises_from(t, 20, 16));
    assert(rises_from(t, 19, 15));
    assert(rises_from(t, 18, 14));
    assert(rises_from(t, 17, 13));
    assert(rises_from(t, 16, 12));
    assert(rises_from(t, 15, 11));
    assert(rises_from(t, 14, 10));
    assert(rises_from(t, 13, 9));
    assert(rises_from(t, 12, 8));
    assert(rises_from(t, 11, 7));
    assert(rises_from(t, 10, 6));
    assert(rises_from(t, 9, 5));
    assert(rises_from(t, 8, 5));
    assert(rises_from(t, 7, 5));
    assert(rises_from(t, 6, 4));
    assert(rises_from(t, 5, 4));
    assert(rises_from(t, 4, 3));
    assert(rises_from(t, 3, 2));
    assert(rises_from(t, 2, 1));
    assert(rises_from(t, 1, 0));
    assert(rises_from(t, 0, -1));
}

proof fn lemma_components_rise_v1_21_11()
    ensures
        rises_from(component_table(ProtocolVersion::V1_21_11), 0, -1),
{
    let t = component_table(ProtocolVersion::V1_21_11);
    assert(rises_from(t, 111, 103));
    assert(rises_from(t, 110, 102));
    assert(rises_from(t, 109, 101));
    assert(rises_from(t, 108, 100));
    assert(rises_from(t, 107, 100));
    assert(rises_from(t, 106, 99));
    assert(rises_from(t, 105, 98));
    assert(rises_from(t, 104, 97));
    assert(rises_from(t, 103, 96));
    assert(rises_from(t, 102, 95));
    assert(rises_from(t, 101, 94));
    assert(rises_from(t, 100, 93));
    assert(rises_from(t, 99, 93));
    assert(rises_from(t, 98, 92));
    assert(rises_from(t, 97, 92));
    assert(rises_from(t, 96, 91));
    assert(rises_from(t, 95, 91));
    assert(rises_from(t, 94, 90));
    assert(rises_from(t, 93, 89));
    assert(rises_from(t, 92, 88));
    assert(rises_from(t, 91, 87));
    assert(rises_from(t, 90, 86));
    assert(rises_from(t, 89, 85));
    assert(rises_from(t, 88, 84));
    assert(rises_from(t, 87, 83));
    assert(rises_from(t, 86, 82));
    assert(rises_from(t, 85, 81));
    assert(rises_from(t, 84, 80));
    assert(rises_from(t, 83, 79));
    assert(rises_from(t, 82, 78));
    assert(rises_from(t, 81, 77));
    assert(rises_from(t, 80, 76));
    assert(rises_from(t, 79, 75));
    assert(rises_from(t, 78, 75));
    assert(rises_from(t, 77, 74));
    assert(rises_from(t, 76, 73));
    assert(rises_from(t, 75, 72));
    assert(rises_from(t, 74, 71));
    assert(rises_from(t, 73, 70));
    assert(rises_from(t, 72, 69));
    assert(rises_from(t, 71, 68));
    assert(rises_from(t, 70, 67));
    assert(rises_from(t, 69, 66));
    assert(rises_from(t, 68, 65));
    assert(rises_from(t, 67, 64));
    assert(rises_from(t, 66, 63));
    assert(rises_from(t, 65, 62));
    assert(rises_from(t, 64, 61));
    assert(rises_from(t, 63, 60));
    assert(rises_from(t, 62, 59));
    assert(rises_from(t, 61, 58));
    assert(rises_from(t, 60, 57));
    assert(rises_from(t, 59, 56));
    assert(rises_from(t, 58, 55));
    assert(rises_from(t, 57, 54));
    assert(rises_from(t, 56, 53));
    assert(rises_from(t, 55, 52));
    assert(rises_from(t, 54, 51));
    assert(rises_from(t, 53, 50));
    assert(rises_from(t, 52, 49));
    assert(rises_from(t, 51, 48));
    assert(rises_from(t, 50, 47));
    assert(rises_from(t, 49, 46));
    assert(rises_from(t, 48, 45));
    assert(rises_from(t, 47, 44));
    assert(rises_from(t, 46, 43));
    assert(rises_from(t, 45, 42));
    assert(rises_from(t, 44, 41));
    assert(rises_from(t, 43, 41));
    assert(rises_from(t, 42, 40));
    assert(rises_from(t, 41, 40));
    assert(rises_from(t, 40, 39));
    assert(rises_from(t, 39, 38));
    assert(rises_from(t, 38, 37));
    assert(rises_from(t, 37, 36));
    assert(rises_from(t, 36, 35));
    assert(rises_from(t, 35, 34));
    assert(rises_from(t, 34, 33));
    assert(rises_from(t, 33, 32));
    assert(rises_from(t, 32, 31));
    assert(rises_from(t, 31, 30));
    assert(rises_from(t, 30, 29));
    assert(rises_from(t, 29, 28));
    assert(rises_from(t, 28, 27));
    assert(rises_from(t, 27, 26));
    assert(rises_from(t, 26, 25));
    assert(rises_from(t, 25, 24));
    assert(rises_from(t, 24, 23));
    assert(rises_from(t, 23, 22));
    assert(rises_from(t, 22, 21));
    assert(rises_from(t, 21, 20));
    assert(rises_from(t, 20, 19));
    assert(rises_from(t, 19, 18));
    assert(rises_from(t, 18, 17));
    assert(rises_from(t, 17, 16));
    assert(rises_from(t, 16, 15));
    assert(rises_from(t, 15, 14));
    assert(rises_from(t, 14, 13));
    assert(rises_from(t, 13, 12));
    assert(rises_from(t, 12, 11));
    assert(rises_from(t, 11, 10));
    assert(rises_from(t, 10, 9));
    assert(rises_from(t, 9, 8));
    assert(rises_from(t, 8, 7));
    assert(rises_from(t, 7, 6));
    assert(rises_from(t, 6, 5));
    assert(rises_from(t, 5, 4));
    assert(rises_from(t, 4, 3));
    assert(rises_from(t, 3, 2));
    assert(rises_from(t, 2, 1));
    assert(rises_from(t, 1, 0));
    assert(rises_from(t, 0, -1));
}

proof fn lemma_components_rise_v26_1()
    ensures
        rises_from(component_table(ProtocolVersion::V26_1), 0, -1),
{
    let t = component_table(ProtocolVersion::V26_1);
    assert(rises_from(t, 111, 109));
    assert(rises_from(t, 110, 108));
    assert(rises_from(t, 109, 107));
    assert(rises_from(t, 108, 106));
    assert(rises_from(t, 107, 105));
    assert(rises_from(t, 106, 104));
    assert(rises_from(t, 105, 103));
    assert(rises_from(t, 104, 102));
    assert(rises_from(t, 103, 101));
    assert(rises_from(t, 102, 100));
    assert(rises_from(t, 101, 99));
    assert(rises_from(t, 100, 98));
    assert(rises_from(t, 99, 97));
    assert(rises_from(t, 98, 96));
    assert(rises_from(t, 97, 95));
    assert(rises_from(t, 96, 94));
    assert(rises_from(t, 95, 93));
    assert(rises_from(t, 94, 92));
    assert(rises_from(t, 93, 91));
    assert(rises_from(t, 92, 90));
    assert(rises_from(t, 91, 89));
    assert(rises_from(t, 90, 88));
    assert(rises_from(t, 89, 87));
    assert(rises_from(t, 88, 86));
    assert(rises_from(t, 87, 85));
    assert(rises_from(t, 86, 84));
    assert(rises_from(t, 85, 83));
    assert(rises_from(t, 84, 82));
    assert(rises_from(t, 83, 81));
    assert(rises_from(t, 82, 80));
    assert(rises_from(t, 81, 79));
    assert(rises_from(t, 80, 78));
    assert(rises_from(t, 79, 77));
    assert(rises_from(t, 78, 77));
    assert(rises_from(t, 77, 76));
    assert(rises_from(t, 76, 75));
    assert(rises_from(t, 75, 74));
    assert(rises_from(t, 74, 73));
    assert(rises_from(t, 73, 72));
    assert(rises_from(t, 72, 71));
    assert(rises_from(t, 71, 70));
    assert(rises_from(t, 70, 69));
    assert(rises_from(t, 69, 68));
    assert(rises_from(t, 68, 67));
    assert(rises_from(t, 67, 66));
    assert(rises_from(t, 66, 65));
    assert(rises_from(t, 65, 64));
    assert(rises_from(t, 64, 63));
    assert(rises_from(t, 63, 62));
    assert(rises_from(t, 62, 61));
    assert(rises_from(t, 61, 60));
    assert(rises_from(t, 60, 59));
    assert(rises_from(t, 59, 58));
    assert(rises_from(t, 58, 57));
    assert(rises_from(t, 57, 56));
    assert(rises_from(t, 56, 55));
    assert(rises_from(t, 55, 54));
    assert(rises_from(t, 54, 53));
    assert(rises_from(t, 53, 52));
    assert(rises_from(t, 52, 51));
    assert(rises_from(t, 51, 50));
    assert(rises_from(t, 50, 49));
    assert(rises_from(t, 49, 48));
    assert(rises_from(t, 48, 47));
    assert(rises_from(t, 47, 46));
    assert(rises_from(t, 46, 45));
    assert(rises_from(t, 45, 44));
    assert(rises_from(t, 44, 43));
    assert(rises_from(t, 43, 42));
    assert(rises_from(t, 42, 41));
    assert(rises_from(t, 41, 40));
    assert(rises_from(t, 40, 39));
    assert(rises_from(t, 39, 38));
    assert(rises_from(t, 38, 37));
    assert(rises_from(t, 37, 36));
    assert(rises_from(t, 36, 35));
    assert(rises_from(t, 35, 34));
    assert(rises_from(t, 34, 33));
    assert(rises_from(t, 33, 32));
    assert(rises_from(t, 32, 31));
    assert(rises_from(t, 31, 30));
    assert(rises_from(t, 30, 29));
    assert(rises_from(t, 29, 28));
    assert(rises_from(t, 28, 27));
    assert(rises_from(t, 27, 26));
    assert(rises_from(t, 26, 25));
    assert(rises_from(t, 25, 24));
    assert(rises_from(t, 24, 23));
    assert(rises_from(t, 23, 22));
    assert(rises_from(t, 22, 21));
    assert(rises_from(t, 21, 20));
    assert(rises_from(t, 20, 19));
    assert(rises_from(t, 19, 18));
    assert(rises_from(t, 18, 17));
    assert(rises_from(t, 17, 16));
    assert(rises_from(t, 16, 15));
    assert(rises_from(t, 15, 14));
    assert(rises_from(t, 14, 13));
    assert(rises_from(t, 13, 12));
    assert(rises_from(t, 12, 11));
    assert(rises_from(t, 11, 10));
    assert(rises_from(t, 10, 9));
    assert(rises_from(t, 9, 8));
    assert(rises_from(t, 8, 7));
    assert(rises_from(t, 7, 6));
    assert(rises_from(t, 6, 5));
    assert(rises_from(t, 5, 4));
    assert(rises_from(t, 4, 3));
    assert(rises_from(t, 3, 2));
    assert(rises_from(t, 2, 1));
    assert(rises_from(t, 1, 0));
    assert(rises_from(t, 0, -1));
}

proof fn lemma_components_rise_v26_2()
    ensures
        rises_from(component_table(ProtocolVersion::V26_2), 0, -1),
{
    let t = component_table(ProtocolVersion::V26_2);
    assert(rises_from(t, 111, 110));
    assert(rises_from(t, 110, 109));
    assert(rises_from(t, 109, 108));
    assert(rises_from(t, 108, 107));
    assert(rises_from(t, 107, 106));
    assert(rises_from(t, 106, 105));
    assert(rises_from(t, 105, 104));
    assert(rises_from(t, 104, 103));
    assert(rises_from(t, 103, 102));
    assert(rises_from(t, 102, 101));
    assert(rises_from(t, 101, 100));
    assert(rises_from(t, 100, 99));
    assert(rises_from(t, 99, 98));
    assert(rises_from(t, 98, 97));
    assert(rises_from(t, 97, 96));
    assert(rises_from(t, 96, 95));
    assert(rises_from(t, 95, 94));
    assert(rises_from(t, 94, 93));
    assert(rises_from(t, 93, 92));
    assert(rises_from(t, 92, 91));
    assert(rises_from(t, 91, 90));
    assert(rises_from(t, 90, 89));
    assert(rises_from(t, 89, 88));
    assert(rises_from(t, 88, 87));
    assert(rises_from(t, 87, 86));
    assert(rises_from(t, 86, 85));
    assert(rises_from(t, 85, 84));
    assert(rises_from(t, 84, 83));
    assert(rises_from(t, 83, 82));
    assert(rises_from(t, 82, 81));
    assert(rises_from(t, 81, 80));
    assert(rises_from(t, 80, 79));
    assert(rises_from(t, 79, 78));
    assert(rises_from(t, 78, 77));
    assert(rises_from(t, 77, 76));
    assert(rises_from(t, 76, 75));
    assert(rises_from(t, 75, 74));
    assert(rises_from(t, 74, 73));
    assert(rises_from(t, 73, 72));
    assert(rises_from(t, 72, 71));
    assert(rises_from(t, 71, 70));
    assert(rises_from(t, 70, 69));
    assert(rises_from(t, 69, 68));
    assert(rises_from(t, 68, 67));
    assert(rises_from(t, 67, 66));
    assert(rises_from(t, 66, 65));
    assert(rises_from(t, 65, 64));
    assert(rises_from(t, 64, 63));
    assert(rises_from(t, 63, 62));
    assert(rises_from(t, 62, 61));
    assert(rises_from(t, 61, 60));
    assert(rises_from(t, 60, 59));
    assert(rises_from(t, 59, 58));
    assert(rises_from(t, 58, 57));
    assert(rises_from(t, 57, 56));
    assert(rises_from(t, 56, 55));
    assert(rises_from(t, 55, 54));
    assert(rises_from(t, 54, 53));
    assert(rises_from(t, 53, 52));
    assert(rises_from(t, 52, 51));
    assert(rises_from(t, 51, 50));
    assert(rises_from(t, 50, 49));
    assert(rises_from(t, 49, 48));
    assert(rises_from(t, 48, 47));
    assert(rises_from(t, 47, 46));
    assert(rises_from(t, 46, 45));
    assert(rises_from(t, 45, 44));
    assert(rises_from(t, 44, 43));
    assert(rises_from(t, 43, 42));
    assert(rises_from(t, 42, 41));
    assert(rises_from(t, 41, 40));
    assert(rises_from(t, 40, 39));
    assert(rises_from(t, 39, 38));
    assert(rises_from(t, 38, 37));
    assert(rises_from(t, 37, 36));
    assert(rises_from(t, 36, 35));
    assert(rises_from(t, 35, 34));
    assert(rises_from(t, 34, 33));
    assert(rises_from(t, 33, 32));
    assert(rises_from(t, 32, 31));
    assert(rises_from(t, 31, 30));
    assert(rises_from(t, 30, 29));
    assert(rises_from(t, 29, 28));
    assert(rises_from(t, 28, 27));
    assert(rises_from(t, 27, 26));
    assert(rises_from(t, 26, 25));
    assert(rises_from(t, 25, 24));
    assert(rises_from(t, 24, 23));
    assert(rises_from(t, 23, 22));
    assert(rises_from(t, 22, 21));
    assert(rises_from(t, 21, 20));
    assert(rises_from(t, 20, 19));
    assert(rises_from(t, 19, 18));
    assert(rises_from(t, 18, 17));
    assert(rises_from(t, 17, 16));
    assert(rises_from(t, 16, 15));
    assert(rises_from(t, 15, 14));
    assert(rises_from(t, 14, 13));
    assert(rises_from(t, 13, 12));
    assert(rises_from(t, 12, 11));
    assert(rises_from(t, 11, 10));
    assert(rises_from(t, 10, 9));
    assert(rises_from(t, 9, 8));
    assert(rises_from(t, 8, 7));
    assert(rises_from(t, 7, 6));
    assert(rises_from(t, 6, 5));
    assert(rises_from(t, 5, 4));
    assert(rises_from(t, 4, 3));
    assert(rises_from(t, 3, 2));
    assert(rises_from(t, 2, 1));
    assert(rises_from(t, 1, 0));
    assert(rises_from(t, 0, -1));
}

proof fn lemma_enchantments_rise_v1_21()
    ensures
        rises_from(enchantment_table(ProtocolVersion::V1_21), 0, -1),
{
    let t = enchantment_table(ProtocolVersion::V1_21);
    assert(rises_from(t, 43, 41));
    assert(rises_from(t, 42, 40));
    assert(rises_from(t, 41, 39));
    assert(rises_from(t, 40, 38));
    assert(rises_from(t, 39, 37));
    assert(rises_from(t, 38, 36));
    assert(rises_from(t, 37, 35));
    assert(rises_from(t, 36, 34));
    assert(rises_from(t, 35, 33));
    assert(rises_from(t, 34, 32));
    assert(rises_from(t, 33, 31));
    assert(rises_from(t, 32, 30));
    assert(rises_from(t, 31, 29));
    assert(rises_from(t, 30, 28));
    assert(rises_from(t, 29, 27));
    assert(rises_from(t, 28, 26));
    assert(rises_from(t, 27, 25));
    assert(rises_from(t, 26, 24));
    assert(rises_from(t, 25, 23));
    assert(rises_from(t, 24, 22));
    assert(rises_from(t, 23, 21));
    assert(rises_from(t, 22, 20));
    assert(rises_from(t, 21, 20));
    assert(rises_from(t, 20, 19));
    assert(rises_from(t, 19, 18));
    assert(rises_from(t, 18, 17));
    assert(rises_from(t, 17, 16));
    assert(rises_from(t, 16, 15));
    assert(rises_from(t, 15, 14));
    assert(rises_from(t, 14, 13));
    assert(rises_from(t, 13, 12));
    assert(rises_from(t, 12, 11));
    assert(rises_from(t, 11, 10));
    assert(rises_from(t, 10, 9));
    assert(rises_from(t, 9, 8));
    assert(rises_from(t, 8, 7));
    assert(rises_from(t, 7, 6));
    assert(rises_from(t, 6, 5));
    assert(rises_from(t, 5, 4));
    assert(rises_from(t, 4, 3));
    assert(rises_from(t, 3, 2));
    assert(rises_from(t, 2, 1));
    assert(rises_from(t, 1, 0));
    assert(rises_from(t, 0, -1));
}

proof fn lemma_enchantments_rise_v1_21_2()
    ensures
        rises_from(enchantment_table(ProtocolVersion::V1_21_2), 0, -1),
{
    let t = enchantment_table(ProtocolVersion::V1_21_2);
    assert(rises_from(t, 43, 41));
    assert(rises_from(t, 42, 40));
    assert(rises_from(t, 41, 39));
    assert(rises_from(t, 40, 38));
    assert(rises_from(t, 39, 37));
    assert(rises_from(t, 38, 36));
    assert(rises_from(t, 37, 35));
    assert(rises_from(t, 36, 34));
    assert(rises_from(t, 35, 33));
    assert(rises_from(t, 34, 32));
    assert(rises_from(t, 33, 31));
    assert(rises_from(t, 32, 30));
    assert(rises_from(t, 31, 29));
    assert(rises_from(t, 30, 28));
    assert(rises_from(t, 29, 27));
    assert(rises_from(t, 28, 26));
    assert(rises_from(t, 27, 25));
    assert(rises_from(t, 26, 24));
    assert(rises_from(t, 25, 23));
    assert(rises_from(t, 24, 22));
    assert(rises_from(t, 23, 21));
    assert(rises_from(t, 22, 20));
    assert(rises_from(t, 21, 20));
    assert(rises_from(t, 20, 19));
    assert(rises_from(t, 19, 18));
    assert(rises_from(t, 18, 17));
    assert(rises_from(t, 17, 16));
    assert(rises_from(t, 16, 15));
    assert(rises_from(t, 15, 14));
    assert(rises_from(t, 14, 13));
    assert(rises_from(t, 13, 12));
    assert(rises_from(t, 12, 11));
    assert(rises_from(t, 11, 10));
    assert(rises_from(t, 10, 9));
    assert(rises_from(t, 9, 8));
    assert(rises_from(t, 8, 7));
    assert(rises_from(t, 7, 6));
    assert(rises_from(t, 6, 5));
    assert(rises_from(t, 5, 4));
    assert(rises_from(t, 4, 3));
    assert(rises_from(t, 3, 2));
    assert(rises_from(t, 2, 1));
    assert(rises_from(t, 1, 0));
    assert(rises_from(t, 0, -1));
}

proof fn lemma_enchantments_rise_v1_21_4()
    ensures
        rises_from(enchantment_table(ProtocolVersion::V1_21_4), 0, -1),
{
    let t = enchantment_table(ProtocolVersion::V1_21_4);
    assert(rises_from(t, 43, 41));
    assert(rises_from(t, 42, 40));
    assert(rises_from(t, 41, 39));
    assert(rises_from(t, 40, 38));
    assert(rises_from(t, 39, 37));
    assert(rises_from(t, 38, 36));
    assert(rises_from(t, 37, 35));
    assert(rises_from(t, 36, 34));
    assert(rises_from(t, 35, 33));
    assert(rises_from(t, 34, 32));
    assert(rises_from(t, 33, 31));
    assert(rises_from(t, 32, 30));
    assert(rises_from(t, 31, 29));
    assert(rises_from(t, 30, 28));
    assert(rises_from(t, 29, 27));
    assert(rises_from(t, 28, 26));
    assert(rises_from(t, 27, 25));
    assert(rises_from(t, 26, 24));
    assert(rises_from(t, 25, 23));
    assert(rises_from(t, 24, 22));
    assert(rises_from(t, 23, 21));
    assert(rises_from(t, 22, 20));
    assert(rises_from(t, 21, 20));
    assert(rises_from(t, 20, 19));
    assert(rises_from(t, 19, 18));
    assert(rises_from(t, 18, 17));
    assert(rises_from(t, 17, 16));
    assert(rises_from(t, 16, 15));
    assert(rises_from(t, 15, 14));
    assert(rises_from(t, 14, 13));
    assert(rises_from(t, 13, 12));
    assert(rises_from(t, 12, 11));
    assert(rises_from(t, 11, 10));
    assert(rises_from(t, 10, 9));
    assert(rises_from(t, 9, 8));
    assert(rises_from(t, 8, 7));
    assert(rises_from(t, 7, 6));
    assert(rises_from(t, 6, 5));
    assert(rises_from(t, 5, 4));
    assert(rises_from(t, 4, 3));
    assert(rises_from(t, 3, 2));
    assert(rises_from(t, 2, 1));
    assert(rises_from(t, 1, 0));
    assert(rises_from(t, 0, -1));
}

proof fn lemma_enchantments_rise_v1_21_5()
    ensures
        rises_from(enchantment_table(ProtocolVersion::V1_21_5), 0, -1),
{
    let t = enchantment_table(ProtocolVersion::V1_21_5);
    assert(rises_from(t, 43, 41));
    assert(rises_from(t, 42, 40));
    assert(rises_from(t, 41, 39));
    assert(rises_from(t, 40, 38));
    assert(rises_from(t, 39, 37));
    assert(rises_from(t, 38, 36));
    assert(rises_from(t, 37, 35));
    assert(rises_from(t, 36, 34));
    assert(rises_from(t, 35, 33));
    assert(rises_from(t, 34, 32));
    assert(rises_from(t, 33, 31));
    assert(rises_from(t, 32, 30));
    assert(rises_from(t, 31, 29));
    assert(rises_from(t, 30, 28));
    assert(rises_from(t, 29, 27));
    assert(rises_from(t, 28, 26));
    assert(rises_from(t, 27, 25));
    assert(rises_from(t, 26, 24));
    assert(rises_from(t, 25, 23));
    assert(rises_from(t, 24, 22));
    assert(rises_from(t, 23, 21));
    assert(rises_from(t, 22, 20));
    assert(rises_from(t, 21, 20));
    assert(rises_from(t, 20, 19));
    assert(rises_from(t, 19, 18));
    assert(rises_from(t, 18, 17));
    assert(rises_from(t, 17, 16));
    assert(rises_from(t, 16, 15));
    assert(rises_from(t, 15, 14));
    assert(rises_from(t, 14, 13));
    assert(rises_from(t, 13, 12));
    assert(rises_from(t, 12, 11));
    assert(rises_from(t, 11, 10));
    assert(rises_from(t, 10, 9));
    assert(rises_from(t, 9, 8));
    assert(rises_from(t, 8, 7));
    assert(rises_from(t, 7, 6));
    assert(rises_from(t, 6, 5));
    assert(rises_from(t, 5, 4));
    assert(rises_from(t, 4, 3));
    assert(rises_from(t, 3, 2));
    assert(rises_from(t, 2, 1));
    assert(rises_from(t, 1, 0));
    assert(rises_from(t, 0, -1));
}

proof fn lemma_enchantments_rise_v1_21_6()
    ensures
        rises_from(enchantment_table(ProtocolVersion::V1_21_6), 0, -1),
{
    let t = enchantment_table(ProtocolVersion::V1_21_6);
    assert(rises_from(t, 43, 41));
    assert(rises_from(t, 42, 40));
    assert(rises_from(t, 41, 39));
    assert(rises_from(t, 40, 38));
    assert(rises_from(t, 39, 37));
    assert(rises_from(t, 38, 36));
    assert(rises_from(t, 37, 35));
    assert(rises_from(t, 36, 34));
    assert(rises_from(t, 35, 33));
    assert(rises_from(t, 34, 32));
    assert(rises_from(t, 33, 31));
    assert(rises_from(t, 32, 30));
    assert(rises_from(t, 31, 29));
    assert(rises_from(t, 30, 28));
    assert(rises_from(t, 29, 27));
    assert(rises_from(t, 28, 26));
    assert(rises_from(t, 27, 25));
    assert(rises_from(t, 26, 24));
    assert(rises_from(t, 25, 23));
    assert(rises_from(t, 24, 22));
    assert(rises_from(t, 23, 21));
    assert(rises_from(t, 22, 20));
    assert(rises_from(t, 21, 20));
    assert(rises_from(t, 20, 19));
    assert(rises_from(t, 19, 18));
    assert(rises_from(t, 18, 17));
    assert(rises_from(t, 17, 16));
    assert(rises_from(t, 16, 15));
    assert(rises_from(t, 15, 14));
    assert(rises_from(t, 14, 13));
    assert(rises_from(t, 13, 12));
    assert(rises_from(t, 12, 11));
    assert(rises_from(t, 11, 10));
    assert(rises_from(t, 10, 9));
    assert(rises_from(t, 9, 8));
    assert(rises_from(t, 8, 7));
    assert(rises_from(t, 7, 6));
    assert(rises_from(t, 6, 5));
    assert(rises_from(t, 5, 4));
    assert(rises_from(t, 4, 3));
    assert(rises_from(t, 3, 2));
    assert(rises_from(t, 2, 1));
    assert(rises_from(t, 1, 0));
    assert(rises_from(t, 0, -1));
}

proof fn lemma_enchantments_rise_v1_21_8()
    ensures
        rises_from(enchantment_table(ProtocolVersion::V1_21_8), 0, -1),
{
    let t = enchantment_table(ProtocolVersion::V1_21_8);
    assert(rises_from(t, 43, 41));
    assert(rises_from(t, 42, 40));
    assert(rises_from(t, 41, 39));
    assert(rises_from(t, 40, 38));
    assert(rises_from(t, 39, 37));
    assert(rises_from(t, 38, 36));
    assert(rises_from(t, 37, 35));
    assert(rises_from(t, 36, 34));
    assert(rises_from(t, 35, 33));
    assert(rises_from(t, 34, 32));
    assert(rises_from(t, 33, 31));
    assert(rises_from(t, 32, 30));
    assert(rises_from(t, 31, 29));
    assert(rises_from(t, 30, 28));
    assert(rises_from(t, 29, 27));
    assert(rises_from(t, 28, 26));
    assert(rises_from(t, 27, 25));
    assert(rises_from(t, 26, 24));
    assert(rises_from(t, 25, 23));
    assert(rises_from(t, 24, 22));
    assert(rises_from(t, 23, 21));
    assert(rises_from(t, 22, 20));
    assert(rises_from(t, 21, 20));
    assert(rises_from(t, 20, 19));
    assert(rises_from(t, 19, 18));
    assert(rises_from(t, 18, 17));
    assert(rises_from(t, 17, 16));
    assert(rises_from(t, 16, 15));
    assert(rises_from(t, 15, 14));
    assert(rises_from(t, 14, 13));
    assert(rises_from(t, 13, 12));
    assert(rises_from(t, 12, 11));
    assert(rises_from(t, 11, 10));
    assert(rises_from(t, 10, 9));
    assert(rises_from(t, 9, 8));
    assert(rises_from(t, 8, 7));
    assert(rises_from(t, 7, 6));
    assert(rises_from(t, 6, 5));
    assert(rises_from(t, 5, 4));
    assert(rises_from(t, 4, 3));
    assert(rises_from(t, 3, 2));
    assert(rises_from(t, 2, 1));
    assert(rises_from(t, 1, 0));
    assert(rises_from(t, 0, -1));
}

proof fn lemma_enchantments_rise_v1_21_9()
    ensures
        rises_from(enchantment_table(ProtocolVersion::V1_21_9), 0, -1),
{
    let t = enchantment_table(ProtocolVersion::V1_21_9);
    assert(rises_from(t, 43, 41));
    assert(rises_from(t, 42, 40));
    assert(rises_from(t, 41, 39));
    assert(rises_from(t, 40, 38));
    assert(rises_from(t, 39, 37));
    assert(rises_from(t, 38, 36));
    assert(rises_from(t, 37, 35));
    assert(rises_from(t, 36, 34));
    assert(rises_from(t, 35, 33));
    assert(rises_from(t, 34, 32));
    assert(rises_from(t, 33, 31));
    assert(rises_from(t, 32, 30));
    assert(rises_from(t, 31, 29));
    assert(rises_from(t, 30, 28));
    assert(rises_from(t, 29, 27));
    assert(rises_from(t, 28, 26));
    assert(rises_from(t, 27, 25));
    assert(rises_from(t, 26, 24));
    assert(rises_from(t, 25, 23));
    assert(rises_from(t, 24, 22));
    assert(rises_from(t, 23, 21));
    assert(rises_from(t, 22, 20));
    assert(rises_from(t, 21, 20));
    assert(rises_from(t, 20, 19));
    assert(rises_from(t, 19, 18));
    assert(rises_from(t, 18, 17));
    assert(rises_from(t, 17, 16));
    assert(rises_from(t, 16, 15));
    assert(rises_from(t, 15, 14));
    assert(rises_from(t, 14, 13));
    assert(rises_from(t, 13, 12));
    assert(rises_from(t, 12, 11));
    assert(rises_from(t, 11, 10));
    assert(rises_from(t, 10, 9));
    assert(rises_from(t, 9, 8));
    assert(rises_from(t, 8, 7));
    assert(rises_from(t, 7, 6));
    assert(rises_from(t, 6, 5));
    assert(rises_from(t, 5, 4));
    assert(rises_from(t, 4, 3));
    assert(rises_from(t, 3, 2));
    assert(rises_from(t, 2, 1));
    assert(rises_from(t, 1, 0));
    assert(rises_from(t, 0, -1));
}

proof fn lemma_enchantments_rise_v1_21_11()
    ensures
        rises_from(enchantment_table(ProtocolVersion::V1_21_11), 0, -1),
{
    let t = enchantment_table(ProtocolVersion::V1_21_11);
    assert(rises_from(t, 43, 42));
    assert(rises_from(t, 42, 41));
    assert(rises_from(t, 41, 40));
    assert(rises_from(t, 40, 39));
    assert(rises_from(t, 39, 38));
    assert(rises_from(t, 38, 37));
    assert(rises_from(t, 37, 36));
    assert(rises_from(t, 36, 35));
    assert(rises_from(t, 35, 34));
    assert(rises_from(t, 34, 33));
    assert(rises_from(t, 33, 32));
    assert(rises_from(t, 32, 31));
    assert(rises_from(t, 31, 30));
    assert(rises_from(t, 30, 29));
    assert(rises_from(t, 29, 28));
    assert(rises_from(t, 28, 27));
    assert(rises_from(t, 27, 26));
    assert(rises_from(t, 26, 25));
    assert(rises_from(t, 25, 24));
    assert(rises_from(t, 24, 23));
    assert(rises_from(t, 23, 22));
    assert(rises_from(t, 22, 21));
    assert(rises_from(t, 21, 20));
    assert(rises_from(t, 20, 19));
    assert(rises_from(t, 19, 18));
    assert(rises_from(t, 18, 17));
    assert(rises_from(t, 17, 16));
    assert(rises_from(t, 16, 15));
    assert(rises_from(t, 15, 14));
    assert(rises_from(t, 14, 13));
    assert(rises_from(t, 13, 12));
    assert(rises_from(t, 12, 11));
    assert(rises_from(t, 11, 10));
    assert(rises_from(t, 10, 9));
    assert(rises_from(t, 9, 8));
    assert(rises_from(t, 8, 7));
    assert(rises_from(t, 7, 6));
    assert(rises_from(t, 6, 5));
    assert(rises_from(t, 5, 4));
    assert(rises_from(t, 4, 3));
    assert(rises_from(t, 3, 2));
    assert(rises_from(t, 2, 1));
    assert(rises_from(t, 1, 0));
    assert(rises_from(t, 0, -1));
}

proof fn lemma_enchantments_rise_v26_1()
    ensures
        rises_from(enchantment_table(ProtocolVersion::V26_1), 0, -1),
{
    let t = enchantment_table(ProtocolVersion::V26_1);
    assert(rises_from(t, 43, 42));
    assert(rises_from(t, 42, 41));
    assert(rises_from(t, 41, 40));
    assert(rises_from(t, 40, 39));
    assert(rises_from(t, 39, 38));
    assert(rises_from(t, 38, 37));
    assert(rises_from(t, 37, 36));
    assert(rises_from(t, 36, 35));
    assert(rises_from(t, 35, 34));
    assert(rises_from(t, 34, 33));
    assert(rises_from(t, 33, 32));
    assert(rises_from(t, 32, 31));
    assert(rises_from(t, 31, 30));
    assert(rises_from(t, 30, 29));
    assert(rises_from(t, 29, 28));
    assert(rises_from(t, 28, 27));
    assert(rises_from(t, 27, 26));
    assert(rises_from(t, 26, 25));
    assert(rises_from(t, 25, 24));
    assert(rises_from(t, 24, 23));
    assert(rises_from(t, 23, 22));
    assert(rises_from(t, 22, 21));
    assert(rises_from(t, 21, 20));
    assert(rises_from(t, 20, 19));
    assert(rises_from(t, 19, 18));
    assert(rises_from(t, 18, 17));
    assert(rises_from(t, 17, 16));
    assert(rises_from(t, 16, 15));
    assert(rises_from(t, 15, 14));
    assert(rises_from(t, 14, 13));
    assert(rises_from(t, 13, 12));
    assert(rises_from(t, 12, 11));
    assert(rises_from(t, 11, 10));
    assert(rises_from(t, 10, 9));
    assert(rises_from(t, 9, 8));
    assert(rises_from(t, 8, 7));
    assert(rises_from(t, 7, 6));
    assert(rises_from(t, 6, 5));
    assert(rises_from(t, 5, 4));
    assert(rises_from(t, 4, 3));
    assert(rises_from(t, 3, 2));
    assert(rises_from(t, 2, 1));
    assert(rises_from(t, 1, 0));
    assert(rises_from(t, 0, -1));
}

proof fn lemma_enchantments_rise_v26_2()
    ensures
        rises_from(enchantment_table(ProtocolVersion::V26_2), 0, -1),
{
    let t = enchantment_table(ProtocolVersion::V26_2);
    assert(rises_from(t, 43, 42));
    assert(rises_from(t, 42, 41));
    assert(rises_from(t, 41, 40));
    assert(rises_from(t, 40, 39));
    assert(rises_from(t, 39, 38));
    assert(rises_from(t, 38, 37));
    assert(rises_from(t, 37, 36));
    assert(rises_from(t, 36, 35));
    assert(rises_from(t, 35, 34));
    assert(rises_from(t, 34, 33));
    assert(rises_from(t, 33, 32));
    assert(rises_from(t, 32, 31));
    assert(rises_from(t, 31, 30));
    assert(rises_from(t, 30, 29));
    assert(rises_from(t, 29, 28));
    assert(rises_from(t, 28, 27));
    assert(rises_from(t, 27, 26));
    assert(rises_from(t, 26, 25));
    assert(rises_from(t, 25, 24));
    assert(rises_from(t, 24, 23));
    assert(rises_from(t, 23, 22));
    assert(rises_from(t, 22, 21));
    assert(rises_from(t, 21, 20));
    assert(rises_from(t, 20, 19));
    assert(rises_from(t, 19, 18));
    assert(rises_from(t, 18, 17));
    assert(rises_from(t, 17, 16));
    assert(rises_from(t, 16, 15));
    assert(rises_from(t, 15, 14));
    assert(rises_from(t, 14, 13));
    assert(rises_from(t, 13, 12));
    assert(rises_from(t, 12, 11));
    assert(rises_from(t, 11, 10));
    assert(rises_from(t, 10, 9));
    assert(rises_from(t, 9, 8));
    assert(rises_from(t, 8, 7));
    assert(rises_from(t, 7, 6));
    assert(rises_from(t, 6, 5));
    assert(rises_from(t, 5, 4));
    assert(rises_from(t, 4, 3));
    assert(rises_from(t, 3, 2));
    assert(rises_from(t, 2, 1));
    assert(rises_from(t, 1, 0));
    assert(rises_from(t, 0, -1));
}

/// Every supported version numbers its components and its enchantments in the order this server
/// does, passing over those it does not have, and every number fits in sixteen bits. Shown one
/// place at a time, since each table is a list of literals.
pub proof fn lemma_tables_rise(version: ProtocolVersion)
    ensures
        rises_from(component_table(version), 0, -1),
        rises_from(enchantment_table(version), 0, -1),
{
    match version {
        ProtocolVersion::V1_21 => {
            lemma_components_rise_v1_21();
            lemma_enchantments_rise_v1_21();
        },
        ProtocolVersion::V1_21_2 => {
            lemma_components_rise_v1_21_2();
            lemma_enchantments_rise_v1_21_2();
        },
        ProtocolVersion::V1_21_4 => {
            lemma_components_rise_v1_21_4();
            lemma_enchantments_rise_v1_21_4();
        },
        ProtocolVersion::V1_21_5 => {
            lemma_components_rise_v1_21_5();
            lemma_enchantments_rise_v1_21_5();
        },
        ProtocolVersion::V1_21_6 => {
            lemma_components_rise_v1_21_6();
            lemma_enchantments_rise_v1_21_6();
        },
        ProtocolVersion::V1_21_8 => {
            lemma_components_rise_v1_21_8();
            lemma_enchantments_rise_v1_21_8();
        },
        ProtocolVersion::V1_21_9 => {
            lemma_components_rise_v1_21_9();
            lemma_enchantments_rise_v1_21_9();
        },
        ProtocolVersion::V1_21_11 => {
            lemma_components_rise_v1_21_11();
            lemma_enchantments_rise_v1_21_11();
        },
        ProtocolVersion::V26_1 => {
            lemma_components_rise_v26_1();
            lemma_enchantments_rise_v26_1();
        },
        ProtocolVersion::V26_2 => {
            lemma_components_rise_v26_2();
            lemma_enchantments_rise_v26_2();
        },
    }
}

} // verus!
