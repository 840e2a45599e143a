//! The distinguished elements of the field, on which transforms over its subgroups of
//! two-power order are built, each with the proof of what it is.

use crate::certificate::lemma_prime_modulus;
use crate::field::{field_mul, field_pow, modulus};
use crate::fr::Fr;
use crate::order::{
    is_order, lemma_cofactor, lemma_cofactor_prime, lemma_pow_mod_adds, lemma_pow_mod_zero,
    lemma_prime_2, lemma_strip_prime, lemma_window, pow_mod,
};
use vstd::arithmetic::div_mod::lemma_small_mod;
use vstd::prelude::*;

verus! {

/// The largest power of two that divides the modulus less one is two to this power.
pub const S: u32 = 28;

/// The limbs of a generator of the multiplicative group of the field.
pub const MULTIPLICATIVE_GENERATOR: [u64; 4] = [7, 0, 0, 0];

/// The limbs of an element whose multiplicative order is two to the power `S`: the generator
/// raised to the odd part of the modulus less one.
pub const ROOT_OF_UNITY: [u64; 4] = [
    0xd34f1ed960c37c9c,
    0x3215cf6dd39329c8,
    0x98865ea93dd31f74,
    0x03ddb9f5166d18b7,
];

/// The limbs of the inverse of `ROOT_OF_UNITY`.
pub const ROOT_OF_UNITY_INV: [u64; 4] = [
    0x0ed3e50a414e6dba,
    0xb22625f59115aba7,
    0x1bbe587180f34361,
    0x048127174daabc26,
];

/// The limbs of the inverse of two.
pub const TWO_INV: [u64; 4] = [
    0xa1f0fac9f8000001,
    0x9419f4243cdcb848,
    0xdc2822db40c0ac2e,
    0x183227397098d014,
];

/// The limbs of the generator raised to the power two to the power `S`.
pub const DELTA: [u64; 4] = [
    0x870e56bbe533e9a2,
    0x5b5f898e5e963f25,
    0x64ec26aad4c86e71,
    0x09226b6e22c6f0ca,
];

/// The integer of `ROOT_OF_UNITY`.
pub open spec fn root_of_unity() -> nat {
    0x3ddb9f5166d18b798865ea93dd31f743215cf6dd39329c8d34f1ed960c37c9cnat
}

/// The integer of `ROOT_OF_UNITY_INV`.
pub open spec fn root_of_unity_inv() -> nat {
    0x48127174daabc261bbe587180f34361b22625f59115aba70ed3e50a414e6dbanat
}

/// The integer of `TWO_INV`.
pub open spec fn two_inv() -> nat {
    0x183227397098d014dc2822db40c0ac2e9419f4243cdcb848a1f0fac9f8000001nat
}

/// The integer of `DELTA`.
pub open spec fn delta() -> nat {
    0x9226b6e22c6f0ca64ec26aad4c86e715b5f898e5e963f25870e56bbe533e9a2nat
}

/// Two to the power `S`.
pub open spec fn two_to_s() -> nat {
    0x1000_0000
}

/// The odd part of the modulus less one.
pub open spec fn odd_part() -> nat {
    0x30644e72e131a029b85045b68181585d2833e84879b9709143e1f593fnat
}

impl Fr {
    /// A generator of the multiplicative group of the field.
    pub fn multiplicative_generator() -> (r: Fr)
        ensures
            r@ == 7,
            r.is_canonical(),
    {
        Fr(MULTIPLICATIVE_GENERATOR)
    }

    /// An element whose multiplicative order is two to the power `S`.
    pub fn root_of_unity() -> (r: Fr)
        ensures
            r@ == root_of_unity(),
            r.is_canonical(),
    {
        Fr(ROOT_OF_UNITY)
    }

    /// The inverse of the root of unity.
    pub fn root_of_unity_inv() -> (r: Fr)
        ensures
            r@ == root_of_unity_inv(),
            r.is_canonical(),
    {
        Fr(ROOT_OF_UNITY_INV)
    }

    /// The inverse of two.
    pub fn two_inv() -> (r: Fr)
        ensures
            r@ == two_inv(),
            r.is_canonical(),
    {
        Fr(TWO_INV)
    }

    /// The generator raised to the power two to the power `S`.
    pub fn delta() -> (r: Fr)
        ensures
            r@ == delta(),
            r.is_canonical(),
    {
        Fr(DELTA)
    }
}

/// The modulus less one is its odd part times two to the power `S`.
pub proof fn lemma_two_adicity()
    ensures
        modulus() - 1 == odd_part() * two_to_s(),
        odd_part() % 2 == 1,
{
}

/// A power on the way to the next lemma: the low digits of the exponent are left off.
proof fn lemma_root_of_unity_part_1()
    ensures
        pow_mod(7, 0x30644e72e131a029b85045b6nat, modulus())
            == 0x23ae1ce0676dac72aeb4e33c00145cc228c2fb9000f97594f8ca3f9841793d46nat,
{
    lemma_pow_mod_zero(7, modulus());
    lemma_window(7, modulus(), 0, 3, 1, 1, 1, 1, 1, 343);
    lemma_window(
        7,
        modulus(),
        3,
        0,
        343,
        117649,
        13841287201,
        0xa62b942e656949441nat,
        0x6bdc8b9748e04a0d3856a612a36d033881nat,
        0x6bdc8b9748e04a0d3856a612a36d033881nat,
    );
    lemma_window(
        7,
        modulus(),
        48,
        6,
        0x6bdc8b9748e04a0d3856a612a36d033881nat,
        0x79c805e9d3d83805618b87a436bfe8a8c6d400229f3f47275f9762cd97dc097nat,
        0x1ac7f90772b86865734d9d943be0c069668fca96bd5c0722747fe4b4c47cb05bnat,
        0xd789cc9d73557fb36e2f87ac98ab742bc1c1d3e10d85a93f5ddd0a957266894nat,
        0x1e39c110736cf793bcf1f6cfb87009322c2180377a311edd01cd6b06a82b14f9nat,
        0x239cafdf70ed7706f0f8a150c552ee782438dbee27fe0c11173826df2f0034fenat,
    );
    lemma_window(
        7,
        modulus(),
        774,
        4,
        0x239cafdf70ed7706f0f8a150c552ee782438dbee27fe0c11173826df2f0034fenat,
        0x1f578f561484059bb358d22cac6f9c862e18742aaafd9db0dfa3536b192fcac1nat,
        0x18ec89762d97b0d111fb35036648ea7c6f2cefa51c576a356dc144b34edba0abnat,
        0x554d3de238f08d9fcafdbe762063219dcae67e65cac58be25c1189006e44e1enat,
        0x15baf5d46043191f25f35c42059e568c7edcf6714db38311d32df5965f0a7638nat,
        0x819451a8e562d74cd6eb8b15b5fa36a8bcf3b792dc04679c88c3a5cc11ebf02nat,
    );
    lemma_window(
        7,
        modulus(),
        12388,
        4,
        0x819451a8e562d74cd6eb8b15b5fa36a8bcf3b792dc04679c88c3a5cc11ebf02nat,
        0x494de8f291994f080385b6e2eaf0ac5bce47aa333d392f6b0a2197e5c35ab60nat,
        0x1ecac808bc549dd80eee1ef5e85ddef025ecb9e8dedac0f78979822b08e57208nat,
        0x2183e72aee98d0f8d766bfd732ca909dd4999f9cb83fb6b734067fe0f26d0970nat,
        0xe0742dd871d178b55de93088c72364bbcf99466ae9a2c3358544c49bb604e05nat,
        0x164d75bf8ee606342437afd2386ff1213a95200a3ce829ee04bd551e23bba2dnat,
    );
    lemma_window(
        7,
        modulus(),
        198212,
        14,
        0x164d75bf8ee606342437afd2386ff1213a95200a3ce829ee04bd551e23bba2dnat,
        0x4e319baf50bac6636402a2b3cf8ce4400666e708bb31a160c2f0307688738e8nat,
        0x181d283f487208c05bed34ccea5de8d759e71139093224a281613a235c30b54enat,
        0xc690ab7f108b43519284b97a1a4656a31328ebf073eb1bd5fda9dc54097942bnat,
        0x1def6e293b247ca7ebcf97b95a4be8530ccb77e9c0d0cf86c340ccf298be24banat,
        0x2030cff35763336d5d56e490b22734226fc0ba5384d0bdc347526d9a25a0c055nat,
    );
    lemma_window(
        7,
        modulus(),
        3171406,
        7,
        0x2030cff35763336d5d56e490b22734226fc0ba5384d0bdc347526d9a25a0c055nat,
        0x19ed390d25e2c623fdb3084f13effb147b9d18810b9487225138364c7fe0c413nat,
        0x21a2f0d2521c06574f679ce39f41014d60104f6d954777ec9fa5fe545d962df0nat,
        0x2c8c8cc2b5314c9eea9949bca82eb1a3efce2a770e6187a94f287a21d156c0bnat,
        0x1202a9a4614fa772dedad82f1f11f0cdcea07a255fd45737294c68d23e2a4c79nat,
        0x4492e5b4a63e0bd5c1c4f33a35b02c72f634018344cc934d8d68f6deb7b2b76nat,
    );
    lemma_window(
        7,
        modulus(),
        50742503,
        2,
        0x4492e5b4a63e0bd5c1c4f33a35b02c72f634018344cc934d8d68f6deb7b2b76nat,
        0x5917c18e6c4b9214e87341a8df5f4943c88f8fe5cee3c5323dc1605c9ec39efnat,
        0x238fa4ed2c6bc365a6b3f472f9bea4f8eeada293df893faabeb8f65d4a5db4f0nat,
        0x5212717ba53bb02b373e8ed743845952c02a1aaa48a7a30bce728d502e38781nat,
        0x3003a186c0a17b831965e79370799167fd88ddd2d0a6497d9d5dca20bad558f7nat,
        0x1de33540a59a9c454d7441003f04436ffd76e7c31d0ef5ce6495a486c2d60717nat,
    );
    lemma_window(
        7,
        modulus(),
        811880050,
        14,
        0x1de33540a59a9c454d7441003f04436ffd76e7c31d0ef5ce6495a486c2d60717nat,
        0x19ea47b26eb5f8e974b8e34b97e02eeb42744bacfe95ae47342f4b87f152666cnat,
        0x224155314cbe269073c39a15b5e3607774b79e82e010c95d47d6ad952389ce04nat,
        0x14db3b38bb4871b53367b6e0f1a7f8e48893e5d6dfd9fbbd71dc20139558bcefnat,
        0x1921480201f397386c95683db5c7660ed837bacde5aa28d2e2c9a899e9e463b2nat,
        0x1f67f36769b4a5e9bdea26e84174d44d4954a8bc9e3b40aaf6e0ae0acfa82204nat,
    );
    lemma_window(
        7,
        modulus(),
        12990080814,
        1,
        0x1f67f36769b4a5e9bdea26e84174d44d4954a8bc9e3b40aaf6e0ae0acfa82204nat,
        0x2e7661a750449a7349f8cfc7ae98defa4cb3b4e2b0cdab4ea80b5fad7603f6f6nat,
        0x2e5751fc38ec5473250b0b88cd58ca0202f7efe41ca0957b130f2b83939fd717nat,
        0x1fdb699828992395eef0d446bfa60e53e0a85fecc2a0bf429d071bee39d3f22nat,
        0x168559afc49170d6ff955cb17ba36f60d0937a4ffbfed6bb46482542f02c4c9cnat,
        0xc788875bc653563d424b7b6dcf4028e3b6c9f5676cb8d6b20532418c1361841nat,
    );
    lemma_window(
        7,
        modulus(),
        207841293025,
        3,
        0xc788875bc653563d424b7b6dcf4028e3b6c9f5676cb8d6b20532418c1361841nat,
        0x2b744a3ce7371968d5061d5ecc2b8a2526f1b9c80b0fcd4318a974f1b109cbc2nat,
        0x1118d048fe8a9beec4e533141f36adb9876891f468045ca7450f909aee966d59nat,
        0xc293e67bba3f7aa2e61d435c63baeb462f3eadc3ebc7e172d3fd3cc61a7f586nat,
        0x15ce0deb30d61f5aba461ee739af884e8a04836d087201b3231863b1bf01a351nat,
        0x1abd7502f709a976b3a9780462607930bcd25b7d17328fa12fbfd8288b31d0ednat,
    );
    lemma_window(
        7,
        modulus(),
        3325460688403,
        1,
        0x1abd7502f709a976b3a9780462607930bcd25b7d17328fa12fbfd8288b31d0ednat,
        0x2cd547f64bc2f60362e851f2e069275175bc3d8423f4c4442ac44dee0bd7d5c6nat,
        0x7bea55f1b815d08295b1bf84cadc20eb8d7e46d38a0b5e1d05b3dfada30de58nat,
        0x20f18b226c77abf93f4b95087a3da2d79f2d33d098f2d8667c48ce2e4e1b33b1nat,
        0xcf0f6b92a21a6b4550e5bc3635262aea74af5dd01aeca150d163dc9c27f2159nat,
        0x2a32709d45b9eec49b143ca135bf5a696ad8d0c2920e160217b9baf06179e96enat,
    );
    lemma_window(
        7,
        modulus(),
        53207371014449,
        10,
        0x2a32709d45b9eec49b143ca135bf5a696ad8d0c2920e160217b9baf06179e96enat,
        0xf701cd31ccf429d414011ba57d65497b2c0bf3767d539f4492b5c5e029fba3cnat,
        0x2dbaa3cf72a00c0291daa17f7cf1140f53c8c6f4c781a4a4287008b636d6b522nat,
        0x6bf16c4f0b3adf33258486f6295e30714d0ed2612bea1d57f176a74a085855cnat,
        0x11494ce120e29918f40e3428e8f9b910c8205ef68a84c6b1b8abf964cfe5499cnat,
        0x1c3a68a44821272bb92b7eb84c5e8a1128fb957505a526ec82ccd7f3ebebf50cnat,
    );
    lemma_window(
        7,
        modulus(),
        851317936231194,
        0,
        0x1c3a68a44821272bb92b7eb84c5e8a1128fb957505a526ec82ccd7f3ebebf50cnat,
        0x2e1a2333f36f6462f87cb8f26dc514f6ecfc1b5a29f5eff4287f0e651b9a8f8nat,
        0x2519e8a3d0d87bbfa8ae65fe88a047a5388636ae2f401d66d7b644349464d7e0nat,
        0x453d409435950e7330e44650133a4dc4038b718b067e127b26b66503443b686nat,
        0x25eeeefcc8453df0d8a6ec77b68f75f74195672ec405a647e409c00a14d198bfnat,
        0x25eeeefcc8453df0d8a6ec77b68f75f74195672ec405a647e409c00a14d198bfnat,
    );
    lemma_window(
        7,
        modulus(),
        13621086979699104,
        2,
        0x25eeeefcc8453df0d8a6ec77b68f75f74195672ec405a647e409c00a14d198bfnat,
        0x2f462e82ec893d1e6b61a7bcdbd4bbdba1c5f74f5e0026a13be859254dd733c3nat,
        0x23a81ca032db840ae6d1b900416a5e434878609b98418b0452133ddffdaaf787nat,
        0x20ad7d3da5057a6abe2a66be8f7655739ccb61f6666735bc71f40ef22ecdd2c2nat,
        0x27d59e1a84fcc318730390bccdf5d09b9e46be7ac729d7ff78b35898eb49f772nat,
        0x1037012044a051293723cf9f2fd71f3b036e2a2d1a08c1337f05962789285caanat,
    );
    lemma_window(
        7,
        modulus(),
        217937391675185666,
        9,
        0x1037012044a051293723cf9f2fd71f3b036e2a2d1a08c1337f05962789285caanat,
        0xcce9b41ea4192427f2532c9c9be260ca9e17cc5305843b7123a43061fd33c2cnat,
        0x243f77a5cae7028d4dbef71700833673fdfbae4ff90d95f3e978a86b2f4c448nat,
        0x28213a63293b64cd4b32904bb41f723f17dfa1714d404145a120a290ef754865nat,
        0x1780cff8c8a63903b164959f242b50a74f9939df494e9911ad75e525f35f0fb6nat,
        0x1207616845953d91f630002224fca6fe5fbe1d3a177a5da18a2dc5130925165cnat,
    );
    lemma_window(
        7,
        modulus(),
        3486998266802970665,
        11,
        0x1207616845953d91f630002224fca6fe5fbe1d3a177a5da18a2dc5130925165cnat,
        0x11cd94a048d62e23808de85b397e05accafbdae26f6d6d2ddd715a5b7a7811c2nat,
        0x26ea30e4d6f5f4923a096da70eb112fe53450ea62960a8cbe6f656fd348e644cnat,
        0x185efc58cd0171fd2cf2184551e260b83b17d67581082e0e296dbef477cf8b0cnat,
        0xfe8cb69e94009cfe8c3033912a2c01008f1ad916029f81f2326d320cd4e8416nat,
        0x240f36ad1fdf43f353f1cb1818e442160da135852e01c7c5212e9b8847e00f93nat,
    );
    lemma_window(
        7,
        modulus(),
        0x30644e72e131a029bnat,
        8,
        0x240f36ad1fdf43f353f1cb1818e442160da135852e01c7c5212e9b8847e00f93nat,
        0x22ac656e3a1932e25ec998d7cf7feb53b12370cd8ac6a9465a9f85fc10000943nat,
        0x2fb09c3bfecad2254a028426cd453d81ffd676ec6a839bf47bcce74721d0f9b2nat,
        0x17c23f719d31c0dea217f520e3b7c6c5d63de7bcb80eb6219764753bf8a11ef1nat,
        0x22d9d7b2df5737951fd5a001af3bf254be16ae8a0ad6faae6d918444fa3ec85anat,
        0xe3bef274d75ef328f00ba3feee341608e4f50251fa198f2c3e3f1a4e4322e3dnat,
    );
    lemma_window(
        7,
        modulus(),
        0x30644e72e131a029b8nat,
        5,
        0xe3bef274d75ef328f00ba3feee341608e4f50251fa198f2c3e3f1a4e4322e3dnat,
        0x1b2519b72a7a977e87612649ba25f8247e64177d055cf835f43669a14b0ce937nat,
        0x1464407847a64f871cf36d9fee4703a6967e737bd772ab36806c58d1893f116enat,
        0x2daef4af95522422db5cb59d7bae64e316c362d8905675edd1b375687d8f51c1nat,
        0x234664803e70195037c98663a4dba36f6b9fcbbbe92a76b43d0cdbaabd3f45c4nat,
        0x1239ebe46fb234f7261dd2f4c6e735efdbeb996fb5893b5888c667d034fd1701nat,
    );
    lemma_window(
        7,
        modulus(),
        0x30644e72e131a029b85nat,
        0,
        0x1239ebe46fb234f7261dd2f4c6e735efdbeb996fb5893b5888c667d034fd1701nat,
        0x22d1f88ffc18292cfb17921dd6729f6f292fe48bf7bd1f15e34e1b6807c8b875nat,
        0x73bb9a5cd91938457701bb243a463d475b8d87244c45dad33f8aa5679f80796nat,
        0x75b46bb7e8f6c2fdcb59d371adda4e1c08115f6b0b5c6dde19e7511f092fd2cnat,
        0x25b7055263283023b9c0ab23d795a753796f3ba5d8bff19b8d66c22407bdca8bnat,
        0x25b7055263283023b9c0ab23d795a753796f3ba5d8bff19b8d66c22407bdca8bnat,
    );
    lemma_window(
        7,
        modulus(),
        0x30644e72e131a029b850nat,
        4,
        0x25b7055263283023b9c0ab23d795a753796f3ba5d8bff19b8d66c22407bdca8bnat,
        0x197512232683f322795ade0af3338564bce78fcd3ec14a0ad875a3305a85bf4bnat,
        0x69bcced90d0cd431ec4928e63ed75518e21aae40df2098174c3deeed0b7de5bnat,
        0x2edc0c9565bf2b5911d5efdb960441f1c219b2e96324e76c311682b7707192e1nat,
        0x295e8e827942478a19d0d0af3a364e296385f72c111202b20ba3a34375e2a090nat,
        0x1bd1c4de34d927d2bc06708ae68ac7782b614f5c6780fb7b0a89c5e4e283de8cnat,
    );
    lemma_window(
        7,
        modulus(),
        0x30644e72e131a029b8504nat,
        5,
        0x1bd1c4de34d927d2bc06708ae68ac7782b614f5c6780fb7b0a89c5e4e283de8cnat,
        0x4cb1f6dc4d4d61c94b018cd837482cffed6268dd6d3555bbddb553cba1c276anat,
        0x24a5a2201f2b057c9879b5f3d8b10c3b86b1dcb0993d005367b2ec241ddf5ee7nat,
        0xe7e2acf1df2acf601ef3e8649e657db6ecd68a99cbee3cba4cf55e74e6ce2denat,
        0x1aeef02997e0af3409cc0f0be3bd4767f8873ac9c115a5a81d20407159b383b8nat,
        0xbbec919c0c84d068edc96fc9f743f0e7d7f2b73c263a435d20fa238b88c807enat,
    );
    lemma_window(
        7,
        modulus(),
        0x30644e72e131a029b85045nat,
        11,
        0xbbec919c0c84d068edc96fc9f743f0e7d7f2b73c263a435d20fa238b88c807enat,
        0x1d8d8bfd02d766820efe35c3d83421088e754b7ee0823fcc6913b78790e93bacnat,
        0xa9f3e03e1589060626feb75648ec2a1e78d2b981039a97eca955aa34b2bcae6nat,
        0xd77a9ea46b8693f3bad6bcefd9eb01c4788ff217a8104448aafc8916b4c099cnat,
        0x77b9dccf77276733f99f361bdb2031905c11504efff92c6d5f596cd3dca2d2dnat,
        0x278ea7d2a6e773ba2e02685a4a8db440acf47a05a4aacf3cf4cbb1016a0d9a01nat,
    );
    lemma_window(
        7,
        modulus(),
        0x30644e72e131a029b85045bnat,
        6,
        0x278ea7d2a6e773ba2e02685a4a8db440acf47a05a4aacf3cf4cbb1016a0d9a01nat,
        0x22013a86f45b8a01b5cba42f5cd8d6e0cd4e652e7c5daa00e614d68ac3af52dnat,
        0x1cedde0a71d6c78370f1e6bd261e51310e50334830f2b92dd2d4adc5d234029anat,
        0x139f4d0199a3aa1b1fe685a7f0bbd856fe78b6d6bb0efafad0b58f3e18f9c575nat,
        0x1142351f98956abaa9dcf5fe8bb478a7b9c10a92973aff5a0c71a8514938006cnat,
        0x23ae1ce0676dac72aeb4e33c00145cc228c2fb9000f97594f8ca3f9841793d46nat,
    );
}

/// A power on the way to the next lemma: the low digits of the exponent are left off.
proof fn lemma_root_of_unity_part_2()
    ensures
        pow_mod(7, 0x30644e72e131a029b85045b68181585d2833e84879b97091nat, modulus())
            == 0x2d5c165524a31f81f6cb13c9b1327cf7959ce6081189accfb4cfd3479ce9c8afnat,
{
    lemma_root_of_unity_part_1();
    lemma_window(
        7,
        modulus(),
        0x30644e72e131a029b85045b6nat,
        8,
        0x23ae1ce0676dac72aeb4e33c00145cc228c2fb9000f97594f8ca3f9841793d46nat,
        0x3052d5b2cd1278b6adbf9033fbbffb499606d3a8f1e4b22b91ed8aafad31d166nat,
        0x131c68e3b4fe01641758eb432e3dd3026f135a0cd08ade834d4b9d57a9d9f03dnat,
        0x2a88a5e447900d721e2f1f20f8790fd527d486b5778ea420f76563845fe7b918nat,
        0x2334a26749b49048f86bc7c0c8f1a40f9c38e70fd6ef41f50be53ce97fa5594anat,
        0x1ab177eb6f37b6ad6c96fbe364a928283f5afa62be5a69ec4e1f97d5d75b6e24nat,
    );
    lemma_window(
        7,
        modulus(),
        0x30644e72e131a029b85045b68nat,
        1,
        0x1ab177eb6f37b6ad6c96fbe364a928283f5afa62be5a69ec4e1f97d5d75b6e24nat,
        0x2cbd9eea93668b26fb826e4ef9f421f6c37f412583f58fb85e1610fe25e6a3f7nat,
        0x1af651c76fdd7befd1da87fdf0118c936ee74a0d88f773f031fce6d83e49e13cnat,
        0x580623fbfec88a6183318a036f4253725efe222ee49884e9047428a194e573bnat,
        0xede340f20bec3ef109b00901ebef307405f638db93ca8116f61e45e5ac8ed0anat,
        0x74acf8422d41b36039c7883d435f4787233e84f1d35b75783e9536c9b7e7b44nat,
    );
    lemma_window(
        7,
        modulus(),
        0x30644e72e131a029b85045b681nat,
        8,
        0x74acf8422d41b36039c7883d435f4787233e84f1d35b75783e9536c9b7e7b44nat,
        0x300f2b65942b325bef5dd41443c0ca1931ab7c2279cc52a2e32dbf1643b119dcnat,
        0x2477c30a88cd27aa44ec21e8572232babc250521f07f0f4bc7030a27a3b880c7nat,
        0x289ca415eae223335ecc27f5a23357171d3876362f50f3b2462095cb0f465771nat,
        0x60eddf1c63cb955ad5d3f0167cca3f0ece00050066ee8f2608b200d29a11094nat,
        0x24592e1b9ca3ad2b19b43fbab10e3bc45daf006e8c825d7f2127afdefa9cb481nat,
    );
    lemma_window(
        7,
        modulus(),
        0x30644e72e131a029b85045b6818nat,
        1,
        0x24592e1b9ca3ad2b19b43fbab10e3bc45daf006e8c825d7f2127afdefa9cb481nat,
        0x28e8b2b28a0a6cfff7fbce1457029e04e39d4b772506294c7bfaf592da16c3afnat,
        0xe6cae565067fbe9351ed487df54435c839990101f4081527e2d6c7489d783cbnat,
        0x16a17773a49b48f2025c91300ecc951eabd5339ba797a0d89f9a4827811668a7nat,
        0x2f6d2873c4b13097b170c4443e75cf789e8204e98fc9d576ac6e7a8d0a403132nat,
        0x29a2447919ae932b8833bb96ac309a1d6456b0b0142c32d71fb99863a7c15858nat,
    );
    lemma_window(
        7,
        modulus(),
        0x30644e72e131a029b85045b68181nat,
        5,
        0x29a2447919ae932b8833bb96ac309a1d6456b0b0142c32d71fb99863a7c15858nat,
        0x2c4fd020a838ee17e7cec931dca79422e5385083eac0136311cb539fd2a9e04fnat,
        0x1c21ffbc82ee457d5f8921273c95be8558ad87b2da57ec41b4b098f0fee1eb2enat,
        0x3c3ab94a7ec1cf5db5be26dae8cb49267c660c421f2530771c3e2937fccfe16nat,
        0x2569257a9e747b8e152be11136f201c35f55d986a60684c5f530dd9061259084nat,
        0x72a00a179a9c79c51a2fd4b648bf1928abbd093f92ca39e0bd12871f932975bnat,
    );
    lemma_window(
        7,
        modulus(),
        0x30644e72e131a029b85045b681815nat,
        8,
        0x72a00a179a9c79c51a2fd4b648bf1928abbd093f92ca39e0bd12871f932975bnat,
        0xa930932b1f75d1745a3ac0732859a81a017ae91466a4ae2e1a765e5e75068e5nat,
        0x1a27bdd4e5f0e0eca591a11640715178ecfe68d68c313784f949dc523838e9fanat,
        0x1288bf19c17b08b8481e30f5d02e768888bb5c60e429303b16d521c29d6c43fbnat,
        0x1b0c7c47b4d6ef00eceddad933a19176ca1e2b621053da774f7808ff321477f9nat,
        0x2a182ca1f09f91d0b16fb69815615fe4c2855945ff05e1ab2130829012258dcbnat,
    );
    lemma_window(
        7,
        modulus(),
        0x30644e72e131a029b85045b6818158nat,
        5,
        0x2a182ca1f09f91d0b16fb69815615fe4c2855945ff05e1ab2130829012258dcbnat,
        0x440f04dd6cc658cda4894acf30b876527d9d96fd6773d3a1c4c60d807367d6nat,
        0xd8bb84f914e19b83b460d0dd09d0ce473902250272018a37f423a0f4a5743a3nat,
        0x1ac7f62b4bb07df1747d3b67dae85ac13bd72f39805fca117a82b15bfd05acbanat,
        0x225af73a2b84131e30652846fc02f524bc5fdc0041f533f657829adafe05ea92nat,
        0x2f48e7f9a82faa9a3c164b857efb012a8e39eb2943a52fc48b9459a8e66ae8a3nat,
    );
    lemma_window(
        7,
        modulus(),
        0x30644e72e131a029b85045b68181585nat,
        13,
        0x2f48e7f9a82faa9a3c164b857efb012a8e39eb2943a52fc48b9459a8e66ae8a3nat,
        0x842cb7724e30ed1ac3e8d6d6d1af94c8f4a400074be836c1328a44097bcec20nat,
        0x2a06fbe4dbda097f14fea8ba7a3b9ab65838dea6c45659a614a5866b8f1226aanat,
        0x2abdbe2909631f3e3af18888d3ca22307f02a3227bdd8e4b57b5535e6bf6e187nat,
        0xaf774ae66d66b8a97f841267f3cc49065bd33cb3b669ec25fe8edd43b380a7enat,
        0x28683580cff0db8bbee3b4cb6ebd6866027d0fe6cbf0bcf9f39ea547d2ec5deanat,
    );
    lemma_window(
        7,
        modulus(),
        0x30644e72e131a029b85045b68181585dnat,
        2,
        0x28683580cff0db8bbee3b4cb6ebd6866027d0fe6cbf0bcf9f39ea547d2ec5deanat,
        0x4d84f71f29a976595ac69ac590f22bb16a24bab46795145cf208ae8f093954fnat,
        0x2be1d3a6d33ac5fc6825e1b5c84a512cafd0e4f63fd133b61f8b129178a7668cnat,
        0x2e7d50c3f55bcb12408a61101ddc73356d85d4df241d120cc04e81fcbf4a0acfnat,
        0x245fed78357fd2ed771893625c9bd442b1c86bc1b4707ae2ed926b9d4068ddc7nat,
        0x28416bda927cd995e06a682983a333aa600ff5e26b73b101ed40104b941272f3nat,
    );
    lemma_window(
        7,
        modulus(),
        0x30644e72e131a029b85045b68181585d2nat,
        8,
        0x28416bda927cd995e06a682983a333aa600ff5e26b73b101ed40104b941272f3nat,
        0xdb171312fb5ccc7160d8ffc6e8ecbb1d2884e9c02d704c767863b177b0ead48nat,
        0xe274cc254ef6bb9c09cdfbcdbc490a2b70e89a9d379a2ef5797c32da73d9817nat,
        0xd412107e4f21e1ce8e3bed0c0efed428de70f04f3a34d235adf38a85bcff281nat,
        0x13fdf56f54bcd85b324eee838ae8a7179cbbb8bf3cd1b211d09f6b81136fcb66nat,
        0x2965fe387693199dfdb434fdff2f393cd939071854abd782eef80159444204c5nat,
    );
    lemma_window(
        7,
        modulus(),
        0x30644e72e131a029b85045b68181585d28nat,
        3,
        0x2965fe387693199dfdb434fdff2f393cd939071854abd782eef80159444204c5nat,
        0x15527385aa5d0a926a58960dfd33d69219541113c6678e4f293f3ff580ace34enat,
        0x4c53c8d163abbffc4b5becbeb15beb07fcc7acf5355e3cb43de3218c8b3bcdnat,
        0x2cdc3d657a862385b05537af580f156a3b68eea14f3474b5acf4bc77bc4f9380nat,
        0x2a6dfc3a8184813eab53e7ccfc9332933a860f4510661a37fe183d8a94102742nat,
        0x23d103c3a2617a138f59e1c6a5a536184cca409a537d36c9e5aeab4f21a49842nat,
    );
    lemma_window(
        7,
        modulus(),
        0x30644e72e131a029b85045b68181585d283nat,
        3,
        0x23d103c3a2617a138f59e1c6a5a536184cca409a537d36c9e5aeab4f21a49842nat,
        0x231072e8e9f17d0d208295fb16ae8c1f8086b0184da591c99b0288050e45fb8anat,
        0x1583656bf5ac0016b8faaa1a5f5668783598d16e330bf4ee639b4f8217a1e884nat,
        0x14d75711bf54d049e68007c7e9eac2c2d0421a4a35fafe72e6b44b05e967da63nat,
        0x14e791c59b0330ee8e274ee03cacf4b4e44f5a4dc93f01aff1d8cb97c356383nat,
        0xc9d82f24055c7828c98377c872fa29f7491f55742b1bf106da5ea51fb88547cnat,
    );
    lemma_window(
        7,
        modulus(),
        0x30644e72e131a029b85045b68181585d2833nat,
        14,
        0xc9d82f24055c7828c98377c872fa29f7491f55742b1bf106da5ea51fb88547cnat,
        0x2f123ca8a554f7e4000ef4dc544d61b6b96f03f3ad269c211e24925d76101d2anat,
        0xd4bf1f22b2818257fad1ccb579d277447bfb92c6dc650a166f5d1d5d8bc38c7nat,
        0x29d35b151c33695ee97ec290d768b7390ea9dae57a5c18c0a7d5d08d785c20cdnat,
        0x2f59891a4ef2d713fe7e36625b939d2e829dbce01b27f185a2799dc4dfa97710nat,
        0x1cca67d457783dd135f2361e1f1351f585bbab0725ac0dc921beba01e59410a2nat,
    );
    lemma_window(
        7,
        modulus(),
        0x30644e72e131a029b85045b68181585d2833enat,
        8,
        0x1cca67d457783dd135f2361e1f1351f585bbab0725ac0dc921beba01e59410a2nat,
        0x27da426b23bc62a76210c5a9474a9ffa64efd39c325e273b4a7e1a631dd29d6dnat,
        0x25198d7c762592dd4bae77efecea9db7a89e8673e8cb33ebb3d3921387033536nat,
        0x11b79c193ebda6854d97890411f259793499ea8a569b6666f467438919bf2d64nat,
        0x2d72d5952b48b8e37d80003570f16b33dc6d1e045f3d6e94a84a3e46a9b3b9f8nat,
        0x20471181b39fbf50a5fd39c5bd6fd257a907e90476e6a0b820d34e96f828e6d6nat,
    );
    lemma_window(
        7,
        modulus(),
        0x30644e72e131a029b85045b68181585d2833e8nat,
        4,
        0x20471181b39fbf50a5fd39c5bd6fd257a907e90476e6a0b820d34e96f828e6d6nat,
        0x1d1632613b4043a9d9cf7d2a95a9a08df943a5fb7adb562491b02e9863791d4bnat,
        0x47c7cdf768a508a38c1ab855bf6534182debc132849e6b6817bfbba915ce6canat,
        0x171eb26fa7aec33b51c85d24b18674715da0c17f52ac842d9ae7655bc6010934nat,
        0x2cf03a10f04c17d4537ff03a41764a8681d7ed61374a0764b797357d1fd65f04nat,
        0x1fb18a9af493f3214ffd144a5b3a9468be33ddbbb1ae36c9d2bd696ee9911bcfnat,
    );
    lemma_window(
        7,
        modulus(),
        0x30644e72e131a029b85045b68181585d2833e84nat,
        8,
        0x1fb18a9af493f3214ffd144a5b3a9468be33ddbbb1ae36c9d2bd696ee9911bcfnat,
        0x3058972a9398443d4b1db7ab3cdd2f861aa3d138fd53fc2d86478f1ac13fde6cnat,
        0xa675b83afe4fbd18182e0bafb587fbffbd6c1f40f81483356b377818669ece0nat,
        0x2e66dfa660bd97736e4cb8272c470b44be989fe771448d063413387c8c807a63nat,
        0x7153134d328a08e0226e92ccac1dc43d2094a92382a0d9e6329b847b419c12anat,
        0x23ce490b3856dae696f7f7cad04ace83c42ba7864e3f8d5f15817296cc421cc0nat,
    );
    lemma_window(
        7,
        modulus(),
        0x30644e72e131a029b85045b68181585d2833e848nat,
        7,
        0x23ce490b3856dae696f7f7cad04ace83c42ba7864e3f8d5f15817296cc421cc0nat,
        0x24acc366bd6cf9f17199d20d9ca369c731ea9908ab280c9ff9a3b50271c1d034nat,
        0x2afb73f0be73e992497cbcd92f80a8e861be9b6afd2a13e1939bcd43c5753bbbnat,
        0x69592e640c7c07c987228d815919d52358f23ea0af045b92bf6cbb0395e9f3fnat,
        0xee80e3da599f521444522c1e28c08901dce75fd04345da64fa6899c4be06d10nat,
        0x1efe10d4f5e44eb0722ecd6ea2324852d74868fb2e1ae6ce3efff49b9f9e5b7fnat,
    );
    lemma_window(
        7,
        modulus(),
        0x30644e72e131a029b85045b68181585d2833e8487nat,
        9,
        0x1efe10d4f5e44eb0722ecd6ea2324852d74868fb2e1ae6ce3efff49b9f9e5b7fnat,
        0x1c687402f589b749f3a932872449479fb073a675a664a3af57657faf8423ed12nat,
        0x82738a4afbe0880921b70a0595910fc9d1227c5a9ed1cbd6b9f0f0a8efa6a9bnat,
        0x28a3af18f0ae1cf88eed5e05872868c4ddea848646c34060cba0cb2227b5a756nat,
        0x2b799cc834d966b35134157be40cbfab6694dcbf5644ab00cb72f29e51411a36nat,
        0x16bfb576e3351a6a81c3f0857bcdf9b35a8d844ec8772d23c1a93458812d5f93nat,
    );
    lemma_window(
        7,
        modulus(),
        0x30644e72e131a029b85045b68181585d2833e84879nat,
        11,
        0x16bfb576e3351a6a81c3f0857bcdf9b35a8d844ec8772d23c1a93458812d5f93nat,
        0xa3f2da34e4415feca6b4a0fba2dd30d83fa540a371e4e18e099415cc959323fnat,
        0x49f07764a110a303d702c1b4b52e013fa2bce6d0911dcddb0802153da572585nat,
        0x48202b0608238298c9220af4d0b0e827b47f7618db95140e7ff52ba47c828b5nat,
        0x703b20395b18999aa957e52da45db2e628462d550ac564983e7776deb2f3b8nat,
        0x21c9e856838cce94e305338e3635dcf5baf6142f3ff009ee48f0c2266d688b21nat,
    );
    lemma_window(
        7,
        modulus(),
        0x30644e72e131a029b85045b68181585d2833e84879bnat,
        9,
        0x21c9e856838cce94e305338e3635dcf5baf6142f3ff009ee48f0c2266d688b21nat,
        0x2a529871046b05133056cc1f30a7488b2e1c30a5d13f21ffa1892aa1ac913003nat,
        0x291665639331cc5b71b66830f10c88121a8c735408584adc7d1d14d00fea9bd3nat,
        0x611fa2c7a8d1deb3bae1ccf4020247e8e2184767e37f004769e519d795381dnat,
        0x918860146239601129c0fb24dee624e46cdad1419a7d221010e28fda450f8a5nat,
        0x1c11824b438993e89a8001b40ef7d27c8c80cf271a946d59c4e1165fcfe7542bnat,
    );
    lemma_window(
        7,
        modulus(),
        0x30644e72e131a029b85045b68181585d2833e84879b9nat,
        7,
        0x1c11824b438993e89a8001b40ef7d27c8c80cf271a946d59c4e1165fcfe7542bnat,
        0x1357a20ad2124a2a89874ed52a9530dc0e7bcf63c54323c7fc6da8fb799b069cnat,
        0x2f21b6f8a297026a7abd377d824678bf4e6761b0791948440cb4b566ed54907anat,
        0x1d74509a2df87d98005834617b37a076a336d093c68a943ee071267a155251e0nat,
        0x72a7255b14c34b4db969802b8dacca037d6976eadcc20ea991673f6f0d07993nat,
        0xffab98751d21f367d2630c3796ddb758fa85e7507cae685f7c2cb7f206a2078nat,
    );
    lemma_window(
        7,
        modulus(),
        0x30644e72e131a029b85045b68181585d2833e84879b97nat,
        0,
        0xffab98751d21f367d2630c3796ddb758fa85e7507cae685f7c2cb7f206a2078nat,
        0x16038e4ac26d37acd5a0914522059decda974a1cc8398f8aacbb5cf8f0c8b8f0nat,
        0x264f660083db2535201772a8d165d5a9900f6da992c789611867237f7711ba2cnat,
        0x1db3632a1136aa8d7aa1b9d0389d2091cf22c0bd2b533383b8a80a6e237dfdc0nat,
        0x2dce59061105d537790e2a063182cb97b714d4c53c4377f3af569bb543de003bnat,
        0x2dce59061105d537790e2a063182cb97b714d4c53c4377f3af569bb543de003bnat,
    );
    lemma_window(
        7,
        modulus(),
        0x30644e72e131a029b85045b68181585d2833e84879b970nat,
        9,
        0x2dce59061105d537790e2a063182cb97b714d4c53c4377f3af569bb543de003bnat,
        0x2478b79a3c35bbef1fb8dbb7a6d8718148ade421b92fee39e6194923128ada27nat,
        0x2c170dc0297bedcc56007476bb62b87fbb75ca747fa2ec970ac82c952bd06900nat,
        0x18b0f9e4188328f568e3b2f12a996d09f946cf26243c59f4edd310646808320cnat,
        0x299b30200a2d2236463d8c9a47d0bf502a7a3d513a16cd378948428179151823nat,
        0x51d8eb8824b2f69c0534fe75e0a7e46ce2c4ae4265e54c0a24e2db1abdf66dfnat,
    );
    lemma_window(
        7,
        modulus(),
        0x30644e72e131a029b85045b68181585d2833e84879b9709nat,
        1,
        0x51d8eb8824b2f69c0534fe75e0a7e46ce2c4ae4265e54c0a24e2db1abdf66dfnat,
        0x20b11443c23dfb87922b5178bf479add578c7ae6dfceed3085a7ba40907801bdnat,
        0x25d6d94625cadcf706d11149de4656a58b365dbb39413b074d2a91104169fb01nat,
        0x140e13f07040f0a0be0d38951edbda03848987754df5db34f1de13a301f0b26anat,
        0x2221e6e01833a92a6801bcf2d107fb3407c65c73b5c6c6b9d2e7f3a7e8b3aef5nat,
        0x2d5c165524a31f81f6cb13c9b1327cf7959ce6081189accfb4cfd3479ce9c8afnat,
    );
}

/// The root of unity is the generator raised to the odd part of the modulus less one.
pub proof fn lemma_root_of_unity()
    ensures
        field_pow(7, odd_part()) == root_of_unity(),
{
    lemma_root_of_unity_part_2();
    lemma_window(
        7,
        modulus(),
        0x30644e72e131a029b85045b68181585d2833e84879b97091nat,
        4,
        0x2d5c165524a31f81f6cb13c9b1327cf7959ce6081189accfb4cfd3479ce9c8afnat,
        0x3e27f1542fb2e0a0e35b610e7d54ab714629d179be15d440aa8ad3a171fe45bnat,
        0xfc5c882229dce00c1784aa46a7c0ad89bd4920b718565ccea5c944016a414cdnat,
        0x189ad0006bd8b9b1ff08fa911f71912550c229f8735863bc7755feac7bc01eadnat,
        0x46dae6581059b91e355a9f0f797fa0cf6fa8e563eeba8db33dbf1464ba1c1a3nat,
        0x22e189b870240f9479c339e15eb99be6ff8940e3fe97639c4f84cebd081918e8nat,
    );
    lemma_window(
        7,
        modulus(),
        0x30644e72e131a029b85045b68181585d2833e84879b970914nat,
        3,
        0x22e189b870240f9479c339e15eb99be6ff8940e3fe97639c4f84cebd081918e8nat,
        0x5fc763d4c6ce408458b53bd6f309b0b093d6e37b68e18f19a53c21769383d24nat,
        0x9489fcd29c90ba845e7a9a6562fc7d34a0b717d25eaf1d52a3a89a753a59349nat,
        0x28b8e9f94e21986f13197eec118566a29201297e346985d0190f150b72ff78e6nat,
        0x14342d1df4fd7e4279a3d7b2ae02a652abe5f8e43805f7a3214ce0b0d8e0e8a9nat,
        0x9e0a0f774ebb3c305af0f74ce4c7cbadc21b94b1168ea6cb2c8df4f8557b9e0nat,
    );
    lemma_window(
        7,
        modulus(),
        0x30644e72e131a029b85045b68181585d2833e84879b9709143nat,
        14,
        0x9e0a0f774ebb3c305af0f74ce4c7cbadc21b94b1168ea6cb2c8df4f8557b9e0nat,
        0x1edce9a62bdd00827d6d50728850b2789a511eadaac23e716896a0cb2f84568enat,
        0x174efb043ce6b15fd3650b8f2aa7214fc44edcda46897b37a340a4ce23e511a5nat,
        0x255ce2531e1699decf56528b035b4fdd6cc28609da2749d435f92adc09bd0ab1nat,
        0x29603e9f5f74e082e431734dc5c7fa7766b1f1fcab403ef9a8949c1061060fcfnat,
        0x15da064c4df7b937675c50e7ed8717a9142c23220bfc2fdf121d0539ca65336fnat,
    );
    lemma_window(
        7,
        modulus(),
        0x30644e72e131a029b85045b68181585d2833e84879b9709143enat,
        1,
        0x15da064c4df7b937675c50e7ed8717a9142c23220bfc2fdf121d0539ca65336fnat,
        0xdb302da6b4f8977b6aa65315af9d9d2c6eb83fcb98d3efb9204fc8c97e1cc33nat,
        0x1a976ba4eac5dd60606ed4933218da094249a342e7a25b4702fc20596727e0b0nat,
        0x1ecff3814a09fc69b9524e7bfa7509c2398ec29229497785d334943fe169c834nat,
        0x16eb9d600cb51bef94c0064d609a79e8e51b5c130b72112624337667d77ae261nat,
        0xf446247b55ee30fe84f5afa1fb54c46cb23cbabe2f2265731c25c1b145c30a4nat,
    );
    lemma_window(
        7,
        modulus(),
        0x30644e72e131a029b85045b68181585d2833e84879b9709143e1nat,
        15,
        0xf446247b55ee30fe84f5afa1fb54c46cb23cbabe2f2265731c25c1b145c30a4nat,
        0x1bc61eafdac27035d17f768a553fd9aa29282a6ba053906cc555518ea9e94d5cnat,
        0x182789309d50e2e72459641bd9607092a164f7caeb83c548f4e882709f62d223nat,
        0xaa1403a1e8f0cf2b67fe3786b8f320a3ac18a35dfaf7709133f946efbdedc04nat,
        0x1d40cdb5cbe3dbc30c3509d1218ecba7aef086837d9497be688c47a9a3346fc2nat,
        0x168b026f7970c852e8d0113592a376fd2fb2c9da342ae686358617d4667679c9nat,
    );
    lemma_window(
        7,
        modulus(),
        0x30644e72e131a029b85045b68181585d2833e84879b9709143e1fnat,
        5,
        0x168b026f7970c852e8d0113592a376fd2fb2c9da342ae686358617d4667679c9nat,
        0xc458eea6d27553ee0b014b535b0eed931de4052173662e7650652ce75c4031anat,
        0x13a27eed7fb452ed154e8bfb9e7f2d5b3b8228a74fa6250f79541d1613716bb8nat,
        0x376e060702141bac508062ea96d2f2455f120391346abb6c25668c1037854d8nat,
        0x58b4b05a599851239b7cdde20a80992712d8e6cc6fe9323177dc89c20e345dcnat,
        0x19a879e3a7c615d45e907cd6266ef8c5178fde8124027087d0e1e0c778ff66ffnat,
    );
    lemma_window(
        7,
        modulus(),
        0x30644e72e131a029b85045b68181585d2833e84879b9709143e1f5nat,
        9,
        0x19a879e3a7c615d45e907cd6266ef8c5178fde8124027087d0e1e0c778ff66ffnat,
        0x25e1746d67da36197c52e3650a57eb2c924051da9c170a65f64d00a204f30776nat,
        0x2637c0d798a161bfedba1ef8547359b831abd8c561fa13a3988f0eb7b290944anat,
        0xf8f9f1913fb0a7bb98926dd0a5d8c9683aa5ce3f6405ddd6e6c126226e00b9bnat,
        0x118463d66bf493c0e5baa65e8a92d4d15331e6821fcf9becf1efb9f96c55f9e8nat,
        0x11cb45029646a0490605f0a683076a1390b4b8d0b8eda8913a87dbecdcc58313nat,
    );
    lemma_window(
        7,
        modulus(),
        0x30644e72e131a029b85045b68181585d2833e84879b9709143e1f59nat,
        3,
        0x11cb45029646a0490605f0a683076a1390b4b8d0b8eda8913a87dbecdcc58313nat,
        0x74432f822dc1b9428b9ed677e3580b7308eacd40fd82d4b385ae5726e93662enat,
        0x2b64931e05176db8b200dfc0726b0c14be75adb4bde0546e74da9198229658f8nat,
        0x257e21d2409367e131b5b3d202dd28698ff71a70ff5ae0e8d0a0a1e559806813nat,
        0x15e5a29e4b6c3f3e96bdf193718b46aa1bc31db1381485ea0ac5a1575b1d7ad5nat,
        0x9f16288b4fcc3995fe4770cb84b2d83daff2490703844a054fb7b78c47f92c8nat,
    );
    lemma_window(
        7,
        modulus(),
        0x30644e72e131a029b85045b68181585d2833e84879b9709143e1f593nat,
        15,
        0x9f16288b4fcc3995fe4770cb84b2d83daff2490703844a054fb7b78c47f92c8nat,
        0x2120f9eb5b3152997cb9731963a15687694b65c1d263509ea503a0a341282480nat,
        0x11dedfe76fcb073cbbc86113e1723937c4663422ed6fe0f6723cdd5fa991b294nat,
        0x2fbde53719a009226270c47eb0e16c6a15d374cbbe7249116dbd28e7ccb8fa7enat,
        0x1f5cce17d6c97f08d5237b50afecc3e28c3c4d96fc2abca93a52754434031876nat,
        0x3ddb9f5166d18b798865ea93dd31f743215cf6dd39329c8d34f1ed960c37c9cnat,
    );
}

/// `DELTA` is the generator raised to the power two to the power `S`.
pub proof fn lemma_delta()
    ensures
        field_pow(7, two_to_s()) == delta(),
{
    lemma_pow_mod_zero(7, modulus());
    lemma_window(7, modulus(), 0, 1, 1, 1, 1, 1, 1, 7);
    lemma_window(7, modulus(), 1, 0, 7, 49, 2401, 5764801, 33232930569601, 33232930569601);
    lemma_window(
        7,
        modulus(),
        16,
        0,
        33232930569601,
        0x3918fa8303c33586e913b01nat,
        0xcbc21fe4561c8d63b78e780e1341e199417c8c0bb7601nat,
        0x2c555228c4bcb87ed684426fd054fe29a1ee631eb83bf1cccc6f032f485c5fanat,
        0x210e5949c0cef773b88f7b40c5df043b1be98421a24c301a6d9773a9f356c59cnat,
        0x210e5949c0cef773b88f7b40c5df043b1be98421a24c301a6d9773a9f356c59cnat,
    );
    lemma_window(
        7,
        modulus(),
        256,
        0,
        0x210e5949c0cef773b88f7b40c5df043b1be98421a24c301a6d9773a9f356c59cnat,
        0x272ace1ba82e99884e8c990692d85575312fc51aa26d476e68e6d463c49a56d1nat,
        0x2900c24c32d3e0afbc8edcde342b02b56005d996cbfda90679f12d71b7fb763dnat,
        0x1a67865151de87a6ad0a3cf906bb62e891d450f3dba1274ebb633797261f787dnat,
        0x1b928771f61c60528dc3e6fe5d8513dd26cf1642b4f52f13991ff69801f56cd0nat,
        0x1b928771f61c60528dc3e6fe5d8513dd26cf1642b4f52f13991ff69801f56cd0nat,
    );
    lemma_window(
        7,
        modulus(),
        4096,
        0,
        0x1b928771f61c60528dc3e6fe5d8513dd26cf1642b4f52f13991ff69801f56cd0nat,
        0x1c54f911b4dc80f3fbbd56fe8d51d0ba00c774dbc340c88eaa59abdb79d0ed8nat,
        0x283eda1652dd7a9e8c4fa97f36165bf3e37d9ed962be0502af970d10c95e4a22nat,
        0x258dbb43da15ff7022641d80ccb15f697bd71b33bda0430508c0ea95700941fnat,
        0x9d21f280ec4521a6f05b6189ca5e98cd9bb1b796e3c6033638b4c30c3d360bdnat,
        0x9d21f280ec4521a6f05b6189ca5e98cd9bb1b796e3c6033638b4c30c3d360bdnat,
    );
    lemma_window(
        7,
        modulus(),
        65536,
        0,
        0x9d21f280ec4521a6f05b6189ca5e98cd9bb1b796e3c6033638b4c30c3d360bdnat,
        0x11be0489f044f3aef86f5eefdabccb727f90b5a76a07cde73518188d4de2e17nat,
        0x29167506888a34c29b717598cf196cd4d49bec12775acd19b71e81466ecd8f7dnat,
        0x7d5f3e77ba0d051dba168b846e1cc0ba567cd700c0bfae8e20240d6d8332969nat,
        0xbf786432a241fca75e3ccef3b6ccb12f0e7d85728d8685640f3e6cb4c247694nat,
        0xbf786432a241fca75e3ccef3b6ccb12f0e7d85728d8685640f3e6cb4c247694nat,
    );
    lemma_window(
        7,
        modulus(),
        1048576,
        0,
        0xbf786432a241fca75e3ccef3b6ccb12f0e7d85728d8685640f3e6cb4c247694nat,
        0x4fadc396088e608c10f1a6863de59afaea4807508b92872ec95eee1b6ddf538nat,
        0x1afce27f0c4b9d6e1a29152024b403ccc3b1c99bba6f3fe8ee8a4ee56e7692e7nat,
        0xf4b9113698a75779aa3775d01e5a29caa9d55331a986288edbc87cdd2424881nat,
        0x134098136182fe3aaed63ed9915e9c2bb3920546ef44d6674067a256dfe61fednat,
        0x134098136182fe3aaed63ed9915e9c2bb3920546ef44d6674067a256dfe61fednat,
    );
    lemma_window(
        7,
        modulus(),
        16777216,
        0,
        0x134098136182fe3aaed63ed9915e9c2bb3920546ef44d6674067a256dfe61fednat,
        0x21a50daca7cb910450ec72aef333eb4f15e30aa1dca876ee1e536f3d90bcef1enat,
        0x194b955d7ed0308377f0aee0a238e20c59eb7638561a264a7a947d279e487ff3nat,
        0x2b47abb88e5fe9cdd257c4a47ade083700c7d82a1d50931d35a241b913ee5186nat,
        0x9226b6e22c6f0ca64ec26aad4c86e715b5f898e5e963f25870e56bbe533e9a2nat,
        0x9226b6e22c6f0ca64ec26aad4c86e715b5f898e5e963f25870e56bbe533e9a2nat,
    );
}

/// The root of unity raised to the power two to the power `S` less one is minus one.
pub proof fn lemma_root_of_unity_half()
    ensures
        field_pow(root_of_unity(), two_to_s() / 2) == modulus() - 1,
{
    lemma_pow_mod_zero(
        0x3ddb9f5166d18b798865ea93dd31f743215cf6dd39329c8d34f1ed960c37c9cnat,
        modulus(),
    );
    lemma_window(
        0x3ddb9f5166d18b798865ea93dd31f743215cf6dd39329c8d34f1ed960c37c9cnat,
        modulus(),
        0,
        8,
        1,
        1,
        1,
        1,
        1,
        0xd94d63997367c97a8ed16c17adaae39262b9af83acb9e003f94c217303dd160nat,
    );
    lemma_window(
        0x3ddb9f5166d18b798865ea93dd31f743215cf6dd39329c8d34f1ed960c37c9cnat,
        modulus(),
        8,
        0,
        0xd94d63997367c97a8ed16c17adaae39262b9af83acb9e003f94c217303dd160nat,
        0x1951441010b2b95a6e47a6075066a50a036f5ba978c050f2821df86636c0facbnat,
        0x1283ba6f4b7b1a76ba2008fe823128bea4adb9269cbfd7c41c223be65bc60863nat,
        0x18c95f1ae6514e11a1b30fd7923947c5ffcec5347f16e91b4dd654168326bedenat,
        0x32750f8f3c2493d0828c7285d0258e1bdcaa463f4442a52747b5c96639659bbnat,
        0x32750f8f3c2493d0828c7285d0258e1bdcaa463f4442a52747b5c96639659bbnat,
    );
    lemma_window(
        0x3ddb9f5166d18b798865ea93dd31f743215cf6dd39329c8d34f1ed960c37c9cnat,
        modulus(),
        128,
        0,
        0x32750f8f3c2493d0828c7285d0258e1bdcaa463f4442a52747b5c96639659bbnat,
        0x2a14464f1ff42de3856402b62520e670745e39fada049d5b2f0e1e3182673378nat,
        0xcf1526aaafac6bacbb67d11a4077806b123f767e4b0883d14cc0193568fc082nat,
        0xf60c8fe0414cb9379b2d39267945f6bd60d06a05216231b26a9fcf88ddbfebenat,
        0x304cd1e79cfa5b0f054e981a27ed7706e7ea6b06a7f266ef8db819c179c2c3eanat,
        0x304cd1e79cfa5b0f054e981a27ed7706e7ea6b06a7f266ef8db819c179c2c3eanat,
    );
    lemma_window(
        0x3ddb9f5166d18b798865ea93dd31f743215cf6dd39329c8d34f1ed960c37c9cnat,
        modulus(),
        2048,
        0,
        0x304cd1e79cfa5b0f054e981a27ed7706e7ea6b06a7f266ef8db819c179c2c3eanat,
        0x9d2cc4b5782fbe923e49ace3f647643a5f5d8fb89091c3ababd582133584b29nat,
        0x2b7ddfe4383c8d806530b94d3120ce6fcb511871e4d44a65f0acd0b96a8a942enat,
        0x2337acd19f40bf2b2aa212849e9a0c07d626d9ca335d73a09119dbe6eaab3cacnat,
        0x10e3d295c1599ff535a1bb49f23d81aa03bd0ed25881f9ed12b179af67f67ae1nat,
        0x10e3d295c1599ff535a1bb49f23d81aa03bd0ed25881f9ed12b179af67f67ae1nat,
    );
    lemma_window(
        0x3ddb9f5166d18b798865ea93dd31f743215cf6dd39329c8d34f1ed960c37c9cnat,
        modulus(),
        32768,
        0,
        0x10e3d295c1599ff535a1bb49f23d81aa03bd0ed25881f9ed12b179af67f67ae1nat,
        0x2f6122bbf1d35fdaa9953f60087a423238aa810773efee2a251aa6161f2e6ee6nat,
        0x14c60185e75885d674db4b3f7d4a5694fa6c01aa0f53557b060bc04a4172705fnat,
        0x2ad9021ed07c42ab19f77c5cf2cbd2deb135ea330f1b1573bd08d99309c4bb7dnat,
        0xdd30b9ad8c173555d2a33029bc807ac165b61281e9054a173af7ff4e4fc88fcnat,
        0xdd30b9ad8c173555d2a33029bc807ac165b61281e9054a173af7ff4e4fc88fcnat,
    );
    lemma_window(
        0x3ddb9f5166d18b798865ea93dd31f743215cf6dd39329c8d34f1ed960c37c9cnat,
        modulus(),
        524288,
        0,
        0xdd30b9ad8c173555d2a33029bc807ac165b61281e9054a173af7ff4e4fc88fcnat,
        0x1058a83d529be585820b96ff0a13f2dbd8675a9e5dd2336a6692cc1e5a526c81nat,
        0x2822ef9d2d155c2b49f7a010aeec0dae3df9cff80535c8d08c9e954b942e6d6bnat,
        0x1c4c3a258629905ef6036a4037c3aa6ae18d1d2452d64bd2684cfa8ede70fdc7nat,
        0x9c532c6306b93d29678200d47c0b2a99c18d51b838eeb1d3eed4c533bb512d0nat,
        0x9c532c6306b93d29678200d47c0b2a99c18d51b838eeb1d3eed4c533bb512d0nat,
    );
    lemma_window(
        0x3ddb9f5166d18b798865ea93dd31f743215cf6dd39329c8d34f1ed960c37c9cnat,
        modulus(),
        8388608,
        0,
        0x9c532c6306b93d29678200d47c0b2a99c18d51b838eeb1d3eed4c533bb512d0nat,
        0x21082ca216cbbf4e1c6e4f4594dd508c996dfbe1174efb98b11509c6e306460bnat,
        0x2b337de1c8c14f22ec9b9e2f96afef3652627366f8170a0a948dad4ac1bd5e80nat,
        0x30644e72e131a029048b6e193fd841045cea24f6fd736bec231204708f703636nat,
        0x30644e72e131a029b85045b68181585d2833e84879b9709143e1f593f0000000nat,
        0x30644e72e131a029b85045b68181585d2833e84879b9709143e1f593f0000000nat,
    );
}

/// The order of the root of unity is two to the power `S`: its power to that exponent is
/// one, and its power to no smaller positive exponent is.
pub proof fn lemma_root_of_unity_order()
    ensures
        field_pow(root_of_unity(), two_to_s()) == 1,
        field_pow(root_of_unity(), two_to_s() / 2) != 1,
        is_order(root_of_unity(), modulus(), two_to_s()),
{
    lemma_root_of_unity_half();
    lemma_pow_mod_adds(root_of_unity(), two_to_s() / 2, two_to_s() / 2, modulus());
    lemma_prime_2();
    let s = lemma_cofactor(root_of_unity(), modulus(), two_to_s());
    if s % 2 == 0 {
        lemma_cofactor_prime(root_of_unity(), modulus(), two_to_s(), s, 2);
    }
    lemma_strip_prime(s, 2, 134217728);
    lemma_strip_prime(s, 2, 67108864);
    lemma_strip_prime(s, 2, 33554432);
    lemma_strip_prime(s, 2, 16777216);
    lemma_strip_prime(s, 2, 8388608);
    lemma_strip_prime(s, 2, 4194304);
    lemma_strip_prime(s, 2, 2097152);
    lemma_strip_prime(s, 2, 1048576);
    lemma_strip_prime(s, 2, 524288);
    lemma_strip_prime(s, 2, 262144);
    lemma_strip_prime(s, 2, 131072);
    lemma_strip_prime(s, 2, 65536);
    lemma_strip_prime(s, 2, 32768);
    lemma_strip_prime(s, 2, 16384);
    lemma_strip_prime(s, 2, 8192);
    lemma_strip_prime(s, 2, 4096);
    lemma_strip_prime(s, 2, 2048);
    lemma_strip_prime(s, 2, 1024);
    lemma_strip_prime(s, 2, 512);
    lemma_strip_prime(s, 2, 256);
    lemma_strip_prime(s, 2, 128);
    lemma_strip_prime(s, 2, 64);
    lemma_strip_prime(s, 2, 32);
    lemma_strip_prime(s, 2, 16);
    lemma_strip_prime(s, 2, 8);
    lemma_strip_prime(s, 2, 4);
    lemma_strip_prime(s, 2, 2);
    lemma_strip_prime(s, 2, 1);
    if s > 1 {
        lemma_small_mod(1, s);
    }
}

/// The inverse of two times two is one, and the inverse of the root of unity times the root
/// of unity is one.
pub proof fn lemma_inverses()
    ensures
        field_mul(two_inv(), 2) == 1,
        field_mul(root_of_unity_inv(), root_of_unity()) == 1,
{
}

/// The order of the multiplicative generator is the modulus less one: its powers are all
/// the nonzero residues.
pub proof fn lemma_generator_order()
    ensures
        is_order(7, modulus(), (modulus() - 1) as nat),
{
    lemma_prime_modulus();
}

} // verus!
