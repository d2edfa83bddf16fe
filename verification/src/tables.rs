//! The initial subkeys and S-boxes of the Blowfish cipher: the standard
//! tables drawn from the hexadecimal digits of pi, as fixed by the cipher's
//! definition. The S-boxes are held flattened: entry `j` of box `b` stands
//! at index `256 * b + j`.

use vstd::prelude::*;

verus! {

/// The 18 initial subkeys.
pub open spec fn p_init() -> Seq<u32> {
    seq![
        0x243f6a88u32, 0x85a308d3u32, 0x13198a2eu32, 0x03707344u32, 0xa4093822u32, 0x299f31d0u32, 0x082efa98u32, 0xec4e6c89u32, 0x452821e6u32, 0x38d01377u32, 0xbe5466cfu32, 0x34e90c6cu32, 0xc0ac29b7u32, 0xc97c50ddu32, 0x3f84d5b5u32, 0xb5470917u32, 0x9216d5d9u32, 0x8979fb1bu32,
    ]
}

/// Appends the 18 initial subkeys to `v`.
pub fn push_p_init(v: &mut Vec<u32>)
    ensures
        final(v)@ == old(v)@ + p_init(),
{
    v.push(0x243f6a88);
    v.push(0x85a308d3);
    v.push(0x13198a2e);
    v.push(0x03707344);
    v.push(0xa4093822);
    v.push(0x299f31d0);
    v.push(0x082efa98);
    v.push(0xec4e6c89);
    v.push(0x452821e6);
    v.push(0x38d01377);
    v.push(0xbe5466cf);
    v.push(0x34e90c6c);
    v.push(0xc0ac29b7);
    v.push(0xc97c50dd);
    v.push(0x3f84d5b5);
    v.push(0xb5470917);
    v.push(0x9216d5d9);
    v.push(0x8979fb1b);
    proof {
        assert(v@ =~= old(v)@ + p_init());
    }
}

/// Entries 0 to 63 of the flattened initial S-boxes.
pub open spec fn s_init_0() -> Seq<u32> {
    seq![
        0xd1310ba6u32, 0x98dfb5acu32, 0x2ffd72dbu32, 0xd01adfb7u32, 0xb8e1afedu32, 0x6a267e96u32, 0xba7c9045u32, 0xf12c7f99u32,
        0x24a19947u32, 0xb3916cf7u32, 0x0801f2e2u32, 0x858efc16u32, 0x636920d8u32, 0x71574e69u32, 0xa458fea3u32, 0xf4933d7eu32,
        0x0d95748fu32, 0x728eb658u32, 0x718bcd58u32, 0x82154aeeu32, 0x7b54a41du32, 0xc25a59b5u32, 0x9c30d539u32, 0x2af26013u32,
        0xc5d1b023u32, 0x286085f0u32, 0xca417918u32, 0xb8db38efu32, 0x8e79dcb0u32, 0x603a180eu32, 0x6c9e0e8bu32, 0xb01e8a3eu32,
        0xd71577c1u32, 0xbd314b27u32, 0x78af2fdau32, 0x55605c60u32, 0xe65525f3u32, 0xaa55ab94u32, 0x57489862u32, 0x63e81440u32,
        0x55ca396au32, 0x2aab10b6u32, 0xb4cc5c34u32, 0x1141e8ceu32, 0xa15486afu32, 0x7c72e993u32, 0xb3ee1411u32, 0x636fbc2au32,
        0x2ba9c55du32, 0x741831f6u32, 0xce5c3e16u32, 0x9b87931eu32, 0xafd6ba33u32, 0x6c24cf5cu32, 0x7a325381u32, 0x28958677u32,
        0x3b8f4898u32, 0x6b4bb9afu32, 0xc4bfe81bu32, 0x66282193u32, 0x61d809ccu32, 0xfb21a991u32, 0x487cac60u32, 0x5dec8032u32,
    ]
}

/// Appends entries 0 to 63 of the flattened initial S-boxes to `v`.
pub fn push_s_init_0(v: &mut Vec<u32>)
    ensures
        final(v)@ == old(v)@ + s_init_0(),
{
    v.push(0xd1310ba6);
    v.push(0x98dfb5ac);
    v.push(0x2ffd72db);
    v.push(0xd01adfb7);
    v.push(0xb8e1afed);
    v.push(0x6a267e96);
    v.push(0xba7c9045);
    v.push(0xf12c7f99);
    v.push(0x24a19947);
    v.push(0xb3916cf7);
    v.push(0x0801f2e2);
    v.push(0x858efc16);
    v.push(0x636920d8);
    v.push(0x71574e69);
    v.push(0xa458fea3);
    v.push(0xf4933d7e);
    v.push(0x0d95748f);
    v.push(0x728eb658);
    v.push(0x718bcd58);
    v.push(0x82154aee);
    v.push(0x7b54a41d);
    v.push(0xc25a59b5);
    v.push(0x9c30d539);
    v.push(0x2af26013);
    v.push(0xc5d1b023);
    v.push(0x286085f0);
    v.push(0xca417918);
    v.push(0xb8db38ef);
    v.push(0x8e79dcb0);
    v.push(0x603a180e);
    v.push(0x6c9e0e8b);
    v.push(0xb01e8a3e);
    v.push(0xd71577c1);
    v.push(0xbd314b27);
    v.push(0x78af2fda);
    v.push(0x55605c60);
    v.push(0xe65525f3);
    v.push(0xaa55ab94);
    v.push(0x57489862);
    v.push(0x63e81440);
    v.push(0x55ca396a);
    v.push(0x2aab10b6);
    v.push(0xb4cc5c34);
    v.push(0x1141e8ce);
    v.push(0xa15486af);
    v.push(0x7c72e993);
    v.push(0xb3ee1411);
    v.push(0x636fbc2a);
    v.push(0x2ba9c55d);
    v.push(0x741831f6);
    v.push(0xce5c3e16);
    v.push(0x9b87931e);
    v.push(0xafd6ba33);
    v.push(0x6c24cf5c);
    v.push(0x7a325381);
    v.push(0x28958677);
    v.push(0x3b8f4898);
    v.push(0x6b4bb9af);
    v.push(0xc4bfe81b);
    v.push(0x66282193);
    v.push(0x61d809cc);
    v.push(0xfb21a991);
    v.push(0x487cac60);
    v.push(0x5dec8032);
    proof {
        assert(v@ =~= old(v)@ + s_init_0());
    }
}

/// Entries 64 to 127 of the flattened initial S-boxes.
pub open spec fn s_init_1() -> Seq<u32> {
    seq![
        0xef845d5du32, 0xe98575b1u32, 0xdc262302u32, 0xeb651b88u32, 0x23893e81u32, 0xd396acc5u32, 0x0f6d6ff3u32, 0x83f44239u32,
        0x2e0b4482u32, 0xa4842004u32, 0x69c8f04au32, 0x9e1f9b5eu32, 0x21c66842u32, 0xf6e96c9au32, 0x670c9c61u32, 0xabd388f0u32,
        0x6a51a0d2u32, 0xd8542f68u32, 0x960fa728u32, 0xab5133a3u32, 0x6eef0b6cu32, 0x137a3be4u32, 0xba3bf050u32, 0x7efb2a98u32,
        0xa1f1651du32, 0x39af0176u32, 0x66ca593eu32, 0x82430e88u32, 0x8cee8619u32, 0x456f9fb4u32, 0x7d84a5c3u32, 0x3b8b5ebeu32,
        0xe06f75d8u32, 0x85c12073u32, 0x401a449fu32, 0x56c16aa6u32, 0x4ed3aa62u32, 0x363f7706u32, 0x1bfedf72u32, 0x429b023du32,
        0x37d0d724u32, 0xd00a1248u32, 0xdb0fead3u32, 0x49f1c09bu32, 0x075372c9u32, 0x80991b7bu32, 0x25d479d8u32, 0xf6e8def7u32,
        0xe3fe501au32, 0xb6794c3bu32, 0x976ce0bdu32, 0x04c006bau32, 0xc1a94fb6u32, 0x409f60c4u32, 0x5e5c9ec2u32, 0x196a2463u32,
        0x68fb6fafu32, 0x3e6c53b5u32, 0x1339b2ebu32, 0x3b52ec6fu32, 0x6dfc511fu32, 0x9b30952cu32, 0xcc814544u32, 0xaf5ebd09u32,
    ]
}

/// Appends entries 64 to 127 of the flattened initial S-boxes to `v`.
pub fn push_s_init_1(v: &mut Vec<u32>)
    ensures
        final(v)@ == old(v)@ + s_init_1(),
{
    v.push(0xef845d5d);
    v.push(0xe98575b1);
    v.push(0xdc262302);
    v.push(0xeb651b88);
    v.push(0x23893e81);
    v.push(0xd396acc5);
    v.push(0x0f6d6ff3);
    v.push(0x83f44239);
    v.push(0x2e0b4482);
    v.push(0xa4842004);
    v.push(0x69c8f04a);
    v.push(0x9e1f9b5e);
    v.push(0x21c66842);
    v.push(0xf6e96c9a);
    v.push(0x670c9c61);
    v.push(0xabd388f0);
    v.push(0x6a51a0d2);
    v.push(0xd8542f68);
    v.push(0x960fa728);
    v.push(0xab5133a3);
    v.push(0x6eef0b6c);
    v.push(0x137a3be4);
    v.push(0xba3bf050);
    v.push(0x7efb2a98);
    v.push(0xa1f1651d);
    v.push(0x39af0176);
    v.push(0x66ca593e);
    v.push(0x82430e88);
    v.push(0x8cee8619);
    v.push(0x456f9fb4);
    v.push(0x7d84a5c3);
    v.push(0x3b8b5ebe);
    v.push(0xe06f75d8);
    v.push(0x85c12073);
    v.push(0x401a449f);
    v.push(0x56c16aa6);
    v.push(0x4ed3aa62);
    v.push(0x363f7706);
    v.push(0x1bfedf72);
    v.push(0x429b023d);
    v.push(0x37d0d724);
    v.push(0xd00a1248);
    v.push(0xdb0fead3);
    v.push(0x49f1c09b);
    v.push(0x075372c9);
    v.push(0x80991b7b);
    v.push(0x25d479d8);
    v.push(0xf6e8def7);
    v.push(0xe3fe501a);
    v.push(0xb6794c3b);
    v.push(0x976ce0bd);
    v.push(0x04c006ba);
    v.push(0xc1a94fb6);
    v.push(0x409f60c4);
    v.push(0x5e5c9ec2);
    v.push(0x196a2463);
    v.push(0x68fb6faf);
    v.push(0x3e6c53b5);
    v.push(0x1339b2eb);
    v.push(0x3b52ec6f);
    v.push(0x6dfc511f);
    v.push(0x9b30952c);
    v.push(0xcc814544);
    v.push(0xaf5ebd09);
    proof {
        assert(v@ =~= old(v)@ + s_init_1());
    }
}

/// Entries 128 to 191 of the flattened initial S-boxes.
pub open spec fn s_init_2() -> Seq<u32> {
    seq![
        0xbee3d004u32, 0xde334afdu32, 0x660f2807u32, 0x192e4bb3u32, 0xc0cba857u32, 0x45c8740fu32, 0xd20b5f39u32, 0xb9d3fbdbu32,
        0x5579c0bdu32, 0x1a60320au32, 0xd6a100c6u32, 0x402c7279u32, 0x679f25feu32, 0xfb1fa3ccu32, 0x8ea5e9f8u32, 0xdb3222f8u32,
        0x3c7516dfu32, 0xfd616b15u32, 0x2f501ec8u32, 0xad0552abu32, 0x323db5fau32, 0xfd238760u32, 0x53317b48u32, 0x3e00df82u32,
        0x9e5c57bbu32, 0xca6f8ca0u32, 0x1a87562eu32, 0xdf1769dbu32, 0xd542a8f6u32, 0x287effc3u32, 0xac6732c6u32, 0x8c4f5573u32,
        0x695b27b0u32, 0xbbca58c8u32, 0xe1ffa35du32, 0xb8f011a0u32, 0x10fa3d98u32, 0xfd2183b8u32, 0x4afcb56cu32, 0x2dd1d35bu32,
        0x9a53e479u32, 0xb6f84565u32, 0xd28e49bcu32, 0x4bfb9790u32, 0xe1ddf2dau32, 0xa4cb7e33u32, 0x62fb1341u32, 0xcee4c6e8u32,
        0xef20cadau32, 0x36774c01u32, 0xd07e9efeu32, 0x2bf11fb4u32, 0x95dbda4du32, 0xae909198u32, 0xeaad8e71u32, 0x6b93d5a0u32,
        0xd08ed1d0u32, 0xafc725e0u32, 0x8e3c5b2fu32, 0x8e7594b7u32, 0x8ff6e2fbu32, 0xf2122b64u32, 0x8888b812u32, 0x900df01cu32,
    ]
}

/// Appends entries 128 to 191 of the flattened initial S-boxes to `v`.
pub fn push_s_init_2(v: &mut Vec<u32>)
    ensures
        final(v)@ == old(v)@ + s_init_2(),
{
    v.push(0xbee3d004);
    v.push(0xde334afd);
    v.push(0x660f2807);
    v.push(0x192e4bb3);
    v.push(0xc0cba857);
    v.push(0x45c8740f);
    v.push(0xd20b5f39);
    v.push(0xb9d3fbdb);
    v.push(0x5579c0bd);
    v.push(0x1a60320a);
    v.push(0xd6a100c6);
    v.push(0x402c7279);
    v.push(0x679f25fe);
    v.push(0xfb1fa3cc);
    v.push(0x8ea5e9f8);
    v.push(0xdb3222f8);
    v.push(0x3c7516df);
    v.push(0xfd616b15);
    v.push(0x2f501ec8);
    v.push(0xad0552ab);
    v.push(0x323db5fa);
    v.push(0xfd238760);
    v.push(0x53317b48);
    v.push(0x3e00df82);
    v.push(0x9e5c57bb);
    v.push(0xca6f8ca0);
    v.push(0x1a87562e);
    v.push(0xdf1769db);
    v.push(0xd542a8f6);
    v.push(0x287effc3);
    v.push(0xac6732c6);
    v.push(0x8c4f5573);
    v.push(0x695b27b0);
    v.push(0xbbca58c8);
    v.push(0xe1ffa35d);
    v.push(0xb8f011a0);
    v.push(0x10fa3d98);
    v.push(0xfd2183b8);
    v.push(0x4afcb56c);
    v.push(0x2dd1d35b);
    v.push(0x9a53e479);
    v.push(0xb6f84565);
    v.push(0xd28e49bc);
    v.push(0x4bfb9790);
    v.push(0xe1ddf2da);
    v.push(0xa4cb7e33);
    v.push(0x62fb1341);
    v.push(0xcee4c6e8);
    v.push(0xef20cada);
    v.push(0x36774c01);
    v.push(0xd07e9efe);
    v.push(0x2bf11fb4);
    v.push(0x95dbda4d);
    v.push(0xae909198);
    v.push(0xeaad8e71);
    v.push(0x6b93d5a0);
    v.push(0xd08ed1d0);
    v.push(0xafc725e0);
    v.push(0x8e3c5b2f);
    v.push(0x8e7594b7);
    v.push(0x8ff6e2fb);
    v.push(0xf2122b64);
    v.push(0x8888b812);
    v.push(0x900df01c);
    proof {
        assert(v@ =~= old(v)@ + s_init_2());
    }
}

/// Entries 192 to 255 of the flattened initial S-boxes.
pub open spec fn s_init_3() -> Seq<u32> {
    seq![
        0x4fad5ea0u32, 0x688fc31cu32, 0xd1cff191u32, 0xb3a8c1adu32, 0x2f2f2218u32, 0xbe0e1777u32, 0xea752dfeu32, 0x8b021fa1u32,
        0xe5a0cc0fu32, 0xb56f74e8u32, 0x18acf3d6u32, 0xce89e299u32, 0xb4a84fe0u32, 0xfd13e0b7u32, 0x7cc43b81u32, 0xd2ada8d9u32,
        0x165fa266u32, 0x80957705u32, 0x93cc7314u32, 0x211a1477u32, 0xe6ad2065u32, 0x77b5fa86u32, 0xc75442f5u32, 0xfb9d35cfu32,
        0xebcdaf0cu32, 0x7b3e89a0u32, 0xd6411bd3u32, 0xae1e7e49u32, 0x00250e2du32, 0x2071b35eu32, 0x226800bbu32, 0x57b8e0afu32,
        0x2464369bu32, 0xf009b91eu32, 0x5563911du32, 0x59dfa6aau32, 0x78c14389u32, 0xd95a537fu32, 0x207d5ba2u32, 0x02e5b9c5u32,
        0x83260376u32, 0x6295cfa9u32, 0x11c81968u32, 0x4e734a41u32, 0xb3472dcau32, 0x7b14a94au32, 0x1b510052u32, 0x9a532915u32,
        0xd60f573fu32, 0xbc9bc6e4u32, 0x2b60a476u32, 0x81e67400u32, 0x08ba6fb5u32, 0x571be91fu32, 0xf296ec6bu32, 0x2a0dd915u32,
        0xb6636521u32, 0xe7b9f9b6u32, 0xff34052eu32, 0xc5855664u32, 0x53b02d5du32, 0xa99f8fa1u32, 0x08ba4799u32, 0x6e85076au32,
    ]
}

/// Appends entries 192 to 255 of the flattened initial S-boxes to `v`.
pub fn push_s_init_3(v: &mut Vec<u32>)
    ensures
        final(v)@ == old(v)@ + s_init_3(),
{
    v.push(0x4fad5ea0);
    v.push(0x688fc31c);
    v.push(0xd1cff191);
    v.push(0xb3a8c1ad);
    v.push(0x2f2f2218);
    v.push(0xbe0e1777);
    v.push(0xea752dfe);
    v.push(0x8b021fa1);
    v.push(0xe5a0cc0f);
    v.push(0xb56f74e8);
    v.push(0x18acf3d6);
    v.push(0xce89e299);
    v.push(0xb4a84fe0);
    v.push(0xfd13e0b7);
    v.push(0x7cc43b81);
    v.push(0xd2ada8d9);
    v.push(0x165fa266);
    v.push(0x80957705);
    v.push(0x93cc7314);
    v.push(0x211a1477);
    v.push(0xe6ad2065);
    v.push(0x77b5fa86);
    v.push(0xc75442f5);
    v.push(0xfb9d35cf);
    v.push(0xebcdaf0c);
    v.push(0x7b3e89a0);
    v.push(0xd6411bd3);
    v.push(0xae1e7e49);
    v.push(0x00250e2d);
    v.push(0x2071b35e);
    v.push(0x226800bb);
    v.push(0x57b8e0af);
    v.push(0x2464369b);
    v.push(0xf009b91e);
    v.push(0x5563911d);
    v.push(0x59dfa6aa);
    v.push(0x78c14389);
    v.push(0xd95a537f);
    v.push(0x207d5ba2);
    v.push(0x02e5b9c5);
    v.push(0x83260376);
    v.push(0x6295cfa9);
    v.push(0x11c81968);
    v.push(0x4e734a41);
    v.push(0xb3472dca);
    v.push(0x7b14a94a);
    v.push(0x1b510052);
    v.push(0x9a532915);
    v.push(0xd60f573f);
    v.push(0xbc9bc6e4);
    v.push(0x2b60a476);
    v.push(0x81e67400);
    v.push(0x08ba6fb5);
    v.push(0x571be91f);
    v.push(0xf296ec6b);
    v.push(0x2a0dd915);
    v.push(0xb6636521);
    v.push(0xe7b9f9b6);
    v.push(0xff34052e);
    v.push(0xc5855664);
    v.push(0x53b02d5d);
    v.push(0xa99f8fa1);
    v.push(0x08ba4799);
    v.push(0x6e85076a);
    proof {
        assert(v@ =~= old(v)@ + s_init_3());
    }
}

/// Entries 256 to 319 of the flattened initial S-boxes.
pub open spec fn s_init_4() -> Seq<u32> {
    seq![
        0x4b7a70e9u32, 0xb5b32944u32, 0xdb75092eu32, 0xc4192623u32, 0xad6ea6b0u32, 0x49a7df7du32, 0x9cee60b8u32, 0x8fedb266u32,
        0xecaa8c71u32, 0x699a17ffu32, 0x5664526cu32, 0xc2b19ee1u32, 0x193602a5u32, 0x75094c29u32, 0xa0591340u32, 0xe4183a3eu32,
        0x3f54989au32, 0x5b429d65u32, 0x6b8fe4d6u32, 0x99f73fd6u32, 0xa1d29c07u32, 0xefe830f5u32, 0x4d2d38e6u32, 0xf0255dc1u32,
        0x4cdd2086u32, 0x8470eb26u32, 0x6382e9c6u32, 0x021ecc5eu32, 0x09686b3fu32, 0x3ebaefc9u32, 0x3c971814u32, 0x6b6a70a1u32,
        0x687f3584u32, 0x52a0e286u32, 0xb79c5305u32, 0xaa500737u32, 0x3e07841cu32, 0x7fdeae5cu32, 0x8e7d44ecu32, 0x5716f2b8u32,
        0xb03ada37u32, 0xf0500c0du32, 0xf01c1f04u32, 0x0200b3ffu32, 0xae0cf51au32, 0x3cb574b2u32, 0x25837a58u32, 0xdc0921bdu32,
        0xd19113f9u32, 0x7ca92ff6u32, 0x94324773u32, 0x22f54701u32, 0x3ae5e581u32, 0x37c2dadcu32, 0xc8b57634u32, 0x9af3dda7u32,
        0xa9446146u32, 0x0fd0030eu32, 0xecc8c73eu32, 0xa4751e41u32, 0xe238cd99u32, 0x3bea0e2fu32, 0x3280bba1u32, 0x183eb331u32,
    ]
}

/// Appends entries 256 to 319 of the flattened initial S-boxes to `v`.
pub fn push_s_init_4(v: &mut Vec<u32>)
    ensures
        final(v)@ == old(v)@ + s_init_4(),
{
    v.push(0x4b7a70e9);
    v.push(0xb5b32944);
    v.push(0xdb75092e);
    v.push(0xc4192623);
    v.push(0xad6ea6b0);
    v.push(0x49a7df7d);
    v.push(0x9cee60b8);
    v.push(0x8fedb266);
    v.push(0xecaa8c71);
    v.push(0x699a17ff);
    v.push(0x5664526c);
    v.push(0xc2b19ee1);
    v.push(0x193602a5);
    v.push(0x75094c29);
    v.push(0xa0591340);
    v.push(0xe4183a3e);
    v.push(0x3f54989a);
    v.push(0x5b429d65);
    v.push(0x6b8fe4d6);
    v.push(0x99f73fd6);
    v.push(0xa1d29c07);
    v.push(0xefe830f5);
    v.push(0x4d2d38e6);
    v.push(0xf0255dc1);
    v.push(0x4cdd2086);
    v.push(0x8470eb26);
    v.push(0x6382e9c6);
    v.push(0x021ecc5e);
    v.push(0x09686b3f);
    v.push(0x3ebaefc9);
    v.push(0x3c971814);
    v.push(0x6b6a70a1);
    v.push(0x687f3584);
    v.push(0x52a0e286);
    v.push(0xb79c5305);
    v.push(0xaa500737);
    v.push(0x3e07841c);
    v.push(0x7fdeae5c);
    v.push(0x8e7d44ec);
    v.push(0x5716f2b8);
    v.push(0xb03ada37);
    v.push(0xf0500c0d);
    v.push(0xf01c1f04);
    v.push(0x0200b3ff);
    v.push(0xae0cf51a);
    v.push(0x3cb574b2);
    v.push(0x25837a58);
    v.push(0xdc0921bd);
    v.push(0xd19113f9);
    v.push(0x7ca92ff6);
    v.push(0x94324773);
    v.push(0x22f54701);
    v.push(0x3ae5e581);
    v.push(0x37c2dadc);
    v.push(0xc8b57634);
    v.push(0x9af3dda7);
    v.push(0xa9446146);
    v.push(0x0fd0030e);
    v.push(0xecc8c73e);
    v.push(0xa4751e41);
    v.push(0xe238cd99);
    v.push(0x3bea0e2f);
    v.push(0x3280bba1);
    v.push(0x183eb331);
    proof {
        assert(v@ =~= old(v)@ + s_init_4());
    }
}

/// Entries 320 to 383 of the flattened initial S-boxes.
pub open spec fn s_init_5() -> Seq<u32> {
    seq![
        0x4e548b38u32, 0x4f6db908u32, 0x6f420d03u32, 0xf60a04bfu32, 0x2cb81290u32, 0x24977c79u32, 0x5679b072u32, 0xbcaf89afu32,
        0xde9a771fu32, 0xd9930810u32, 0xb38bae12u32, 0xdccf3f2eu32, 0x5512721fu32, 0x2e6b7124u32, 0x501adde6u32, 0x9f84cd87u32,
        0x7a584718u32, 0x7408da17u32, 0xbc9f9abcu32, 0xe94b7d8cu32, 0xec7aec3au32, 0xdb851dfau32, 0x63094366u32, 0xc464c3d2u32,
        0xef1c1847u32, 0x3215d908u32, 0xdd433b37u32, 0x24c2ba16u32, 0x12a14d43u32, 0x2a65c451u32, 0x50940002u32, 0x133ae4ddu32,
        0x71dff89eu32, 0x10314e55u32, 0x81ac77d6u32, 0x5f11199bu32, 0x043556f1u32, 0xd7a3c76bu32, 0x3c11183bu32, 0x5924a509u32,
        0xf28fe6edu32, 0x97f1fbfau32, 0x9ebabf2cu32, 0x1e153c6eu32, 0x86e34570u32, 0xeae96fb1u32, 0x860e5e0au32, 0x5a3e2ab3u32,
        0x771fe71cu32, 0x4e3d06fau32, 0x2965dcb9u32, 0x99e71d0fu32, 0x803e89d6u32, 0x5266c825u32, 0x2e4cc978u32, 0x9c10b36au32,
        0xc6150ebau32, 0x94e2ea78u32, 0xa5fc3c53u32, 0x1e0a2df4u32, 0xf2f74ea7u32, 0x361d2b3du32, 0x1939260fu32, 0x19c27960u32,
    ]
}

/// Appends entries 320 to 383 of the flattened initial S-boxes to `v`.
pub fn push_s_init_5(v: &mut Vec<u32>)
    ensures
        final(v)@ == old(v)@ + s_init_5(),
{
    v.push(0x4e548b38);
    v.push(0x4f6db908);
    v.push(0x6f420d03);
    v.push(0xf60a04bf);
    v.push(0x2cb81290);
    v.push(0x24977c79);
    v.push(0x5679b072);
    v.push(0xbcaf89af);
    v.push(0xde9a771f);
    v.push(0xd9930810);
    v.push(0xb38bae12);
    v.push(0xdccf3f2e);
    v.push(0x5512721f);
    v.push(0x2e6b7124);
    v.push(0x501adde6);
    v.push(0x9f84cd87);
    v.push(0x7a584718);
    v.push(0x7408da17);
    v.push(0xbc9f9abc);
    v.push(0xe94b7d8c);
    v.push(0xec7aec3a);
    v.push(0xdb851dfa);
    v.push(0x63094366);
    v.push(0xc464c3d2);
    v.push(0xef1c1847);
    v.push(0x3215d908);
    v.push(0xdd433b37);
    v.push(0x24c2ba16);
    v.push(0x12a14d43);
    v.push(0x2a65c451);
    v.push(0x50940002);
    v.push(0x133ae4dd);
    v.push(0x71dff89e);
    v.push(0x10314e55);
    v.push(0x81ac77d6);
    v.push(0x5f11199b);
    v.push(0x043556f1);
    v.push(0xd7a3c76b);
    v.push(0x3c11183b);
    v.push(0x5924a509);
    v.push(0xf28fe6ed);
    v.push(0x97f1fbfa);
    v.push(0x9ebabf2c);
    v.push(0x1e153c6e);
    v.push(0x86e34570);
    v.push(0xeae96fb1);
    v.push(0x860e5e0a);
    v.push(0x5a3e2ab3);
    v.push(0x771fe71c);
    v.push(0x4e3d06fa);
    v.push(0x2965dcb9);
    v.push(0x99e71d0f);
    v.push(0x803e89d6);
    v.push(0x5266c825);
    v.push(0x2e4cc978);
    v.push(0x9c10b36a);
    v.push(0xc6150eba);
    v.push(0x94e2ea78);
    v.push(0xa5fc3c53);
    v.push(0x1e0a2df4);
    v.push(0xf2f74ea7);
    v.push(0x361d2b3d);
    v.push(0x1939260f);
    v.push(0x19c27960);
    proof {
        assert(v@ =~= old(v)@ + s_init_5());
    }
}

/// Entries 384 to 447 of the flattened initial S-boxes.
pub open spec fn s_init_6() -> Seq<u32> {
    seq![
        0x5223a708u32, 0xf71312b6u32, 0xebadfe6eu32, 0xeac31f66u32, 0xe3bc4595u32, 0xa67bc883u32, 0xb17f37d1u32, 0x018cff28u32,
        0xc332ddefu32, 0xbe6c5aa5u32, 0x65582185u32, 0x68ab9802u32, 0xeecea50fu32, 0xdb2f953bu32, 0x2aef7dadu32, 0x5b6e2f84u32,
        0x1521b628u32, 0x29076170u32, 0xecdd4775u32, 0x619f1510u32, 0x13cca830u32, 0xeb61bd96u32, 0x0334fe1eu32, 0xaa0363cfu32,
        0xb5735c90u32, 0x4c70a239u32, 0xd59e9e0bu32, 0xcbaade14u32, 0xeecc86bcu32, 0x60622ca7u32, 0x9cab5cabu32, 0xb2f3846eu32,
        0x648b1eafu32, 0x19bdf0cau32, 0xa02369b9u32, 0x655abb50u32, 0x40685a32u32, 0x3c2ab4b3u32, 0x319ee9d5u32, 0xc021b8f7u32,
        0x9b540b19u32, 0x875fa099u32, 0x95f7997eu32, 0x623d7da8u32, 0xf837889au32, 0x97e32d77u32, 0x11ed935fu32, 0x16681281u32,
        0x0e358829u32, 0xc7e61fd6u32, 0x96dedfa1u32, 0x7858ba99u32, 0x57f584a5u32, 0x1b227263u32, 0x9b83c3ffu32, 0x1ac24696u32,
        0xcdb30aebu32, 0x532e3054u32, 0x8fd948e4u32, 0x6dbc3128u32, 0x58ebf2efu32, 0x34c6ffeau32, 0xfe28ed61u32, 0xee7c3c73u32,
    ]
}

/// Appends entries 384 to 447 of the flattened initial S-boxes to `v`.
pub fn push_s_init_6(v: &mut Vec<u32>)
    ensures
        final(v)@ == old(v)@ + s_init_6(),
{
    v.push(0x5223a708);
    v.push(0xf71312b6);
    v.push(0xebadfe6e);
    v.push(0xeac31f66);
    v.push(0xe3bc4595);
    v.push(0xa67bc883);
    v.push(0xb17f37d1);
    v.push(0x018cff28);
    v.push(0xc332ddef);
    v.push(0xbe6c5aa5);
    v.push(0x65582185);
    v.push(0x68ab9802);
    v.push(0xeecea50f);
    v.push(0xdb2f953b);
    v.push(0x2aef7dad);
    v.push(0x5b6e2f84);
    v.push(0x1521b628);
    v.push(0x29076170);
    v.push(0xecdd4775);
    v.push(0x619f1510);
    v.push(0x13cca830);
    v.push(0xeb61bd96);
    v.push(0x0334fe1e);
    v.push(0xaa0363cf);
    v.push(0xb5735c90);
    v.push(0x4c70a239);
    v.push(0xd59e9e0b);
    v.push(0xcbaade14);
    v.push(0xeecc86bc);
    v.push(0x60622ca7);
    v.push(0x9cab5cab);
    v.push(0xb2f3846e);
    v.push(0x648b1eaf);
    v.push(0x19bdf0ca);
    v.push(0xa02369b9);
    v.push(0x655abb50);
    v.push(0x40685a32);
    v.push(0x3c2ab4b3);
    v.push(0x319ee9d5);
    v.push(0xc021b8f7);
    v.push(0x9b540b19);
    v.push(0x875fa099);
    v.push(0x95f7997e);
    v.push(0x623d7da8);
    v.push(0xf837889a);
    v.push(0x97e32d77);
    v.push(0x11ed935f);
    v.push(0x16681281);
    v.push(0x0e358829);
    v.push(0xc7e61fd6);
    v.push(0x96dedfa1);
    v.push(0x7858ba99);
    v.push(0x57f584a5);
    v.push(0x1b227263);
    v.push(0x9b83c3ff);
    v.push(0x1ac24696);
    v.push(0xcdb30aeb);
    v.push(0x532e3054);
    v.push(0x8fd948e4);
    v.push(0x6dbc3128);
    v.push(0x58ebf2ef);
    v.push(0x34c6ffea);
    v.push(0xfe28ed61);
    v.push(0xee7c3c73);
    proof {
        assert(v@ =~= old(v)@ + s_init_6());
    }
}

/// Entries 448 to 511 of the flattened initial S-boxes.
pub open spec fn s_init_7() -> Seq<u32> {
    seq![
        0x5d4a14d9u32, 0xe864b7e3u32, 0x42105d14u32, 0x203e13e0u32, 0x45eee2b6u32, 0xa3aaabeau32, 0xdb6c4f15u32, 0xfacb4fd0u32,
        0xc742f442u32, 0xef6abbb5u32, 0x654f3b1du32, 0x41cd2105u32, 0xd81e799eu32, 0x86854dc7u32, 0xe44b476au32, 0x3d816250u32,
        0xcf62a1f2u32, 0x5b8d2646u32, 0xfc8883a0u32, 0xc1c7b6a3u32, 0x7f1524c3u32, 0x69cb7492u32, 0x47848a0bu32, 0x5692b285u32,
        0x095bbf00u32, 0xad19489du32, 0x1462b174u32, 0x23820e00u32, 0x58428d2au32, 0x0c55f5eau32, 0x1dadf43eu32, 0x233f7061u32,
        0x3372f092u32, 0x8d937e41u32, 0xd65fecf1u32, 0x6c223bdbu32, 0x7cde3759u32, 0xcbee7460u32, 0x4085f2a7u32, 0xce77326eu32,
        0xa6078084u32, 0x19f8509eu32, 0xe8efd855u32, 0x61d99735u32, 0xa969a7aau32, 0xc50c06c2u32, 0x5a04abfcu32, 0x800bcadcu32,
        0x9e447a2eu32, 0xc3453484u32, 0xfdd56705u32, 0x0e1e9ec9u32, 0xdb73dbd3u32, 0x105588cdu32, 0x675fda79u32, 0xe3674340u32,
        0xc5c43465u32, 0x713e38d8u32, 0x3d28f89eu32, 0xf16dff20u32, 0x153e21e7u32, 0x8fb03d4au32, 0xe6e39f2bu32, 0xdb83adf7u32,
    ]
}

/// Appends entries 448 to 511 of the flattened initial S-boxes to `v`.
pub fn push_s_init_7(v: &mut Vec<u32>)
    ensures
        final(v)@ == old(v)@ + s_init_7(),
{
    v.push(0x5d4a14d9);
    v.push(0xe864b7e3);
    v.push(0x42105d14);
    v.push(0x203e13e0);
    v.push(0x45eee2b6);
    v.push(0xa3aaabea);
    v.push(0xdb6c4f15);
    v.push(0xfacb4fd0);
    v.push(0xc742f442);
    v.push(0xef6abbb5);
    v.push(0x654f3b1d);
    v.push(0x41cd2105);
    v.push(0xd81e799e);
    v.push(0x86854dc7);
    v.push(0xe44b476a);
    v.push(0x3d816250);
    v.push(0xcf62a1f2);
    v.push(0x5b8d2646);
    v.push(0xfc8883a0);
    v.push(0xc1c7b6a3);
    v.push(0x7f1524c3);
    v.push(0x69cb7492);
    v.push(0x47848a0b);
    v.push(0x5692b285);
    v.push(0x095bbf00);
    v.push(0xad19489d);
    v.push(0x1462b174);
    v.push(0x23820e00);
    v.push(0x58428d2a);
    v.push(0x0c55f5ea);
    v.push(0x1dadf43e);
    v.push(0x233f7061);
    v.push(0x3372f092);
    v.push(0x8d937e41);
    v.push(0xd65fecf1);
    v.push(0x6c223bdb);
    v.push(0x7cde3759);
    v.push(0xcbee7460);
    v.push(0x4085f2a7);
    v.push(0xce77326e);
    v.push(0xa6078084);
    v.push(0x19f8509e);
    v.push(0xe8efd855);
    v.push(0x61d99735);
    v.push(0xa969a7aa);
    v.push(0xc50c06c2);
    v.push(0x5a04abfc);
    v.push(0x800bcadc);
    v.push(0x9e447a2e);
    v.push(0xc3453484);
    v.push(0xfdd56705);
    v.push(0x0e1e9ec9);
    v.push(0xdb73dbd3);
    v.push(0x105588cd);
    v.push(0x675fda79);
    v.push(0xe3674340);
    v.push(0xc5c43465);
    v.push(0x713e38d8);
    v.push(0x3d28f89e);
    v.push(0xf16dff20);
    v.push(0x153e21e7);
    v.push(0x8fb03d4a);
    v.push(0xe6e39f2b);
    v.push(0xdb83adf7);
    proof {
        assert(v@ =~= old(v)@ + s_init_7());
    }
}

/// Entries 512 to 575 of the flattened initial S-boxes.
pub open spec fn s_init_8() -> Seq<u32> {
    seq![
        0xe93d5a68u32, 0x948140f7u32, 0xf64c261cu32, 0x94692934u32, 0x411520f7u32, 0x7602d4f7u32, 0xbcf46b2eu32, 0xd4a20068u32,
        0xd4082471u32, 0x3320f46au32, 0x43b7d4b7u32, 0x500061afu32, 0x1e39f62eu32, 0x97244546u32, 0x14214f74u32, 0xbf8b8840u32,
        0x4d95fc1du32, 0x96b591afu32, 0x70f4ddd3u32, 0x66a02f45u32, 0xbfbc09ecu32, 0x03bd9785u32, 0x7fac6dd0u32, 0x31cb8504u32,
        0x96eb27b3u32, 0x55fd3941u32, 0xda2547e6u32, 0xabca0a9au32, 0x28507825u32, 0x530429f4u32, 0x0a2c86dau32, 0xe9b66dfbu32,
        0x68dc1462u32, 0xd7486900u32, 0x680ec0a4u32, 0x27a18deeu32, 0x4f3ffea2u32, 0xe887ad8cu32, 0xb58ce006u32, 0x7af4d6b6u32,
        0xaace1e7cu32, 0xd3375fecu32, 0xce78a399u32, 0x406b2a42u32, 0x20fe9e35u32, 0xd9f385b9u32, 0xee39d7abu32, 0x3b124e8bu32,
        0x1dc9faf7u32, 0x4b6d1856u32, 0x26a36631u32, 0xeae397b2u32, 0x3a6efa74u32, 0xdd5b4332u32, 0x6841e7f7u32, 0xca7820fbu32,
        0xfb0af54eu32, 0xd8feb397u32, 0x454056acu32, 0xba489527u32, 0x55533a3au32, 0x20838d87u32, 0xfe6ba9b7u32, 0xd096954bu32,
    ]
}

/// Appends entries 512 to 575 of the flattened initial S-boxes to `v`.
pub fn push_s_init_8(v: &mut Vec<u32>)
    ensures
        final(v)@ == old(v)@ + s_init_8(),
{
    v.push(0xe93d5a68);
    v.push(0x948140f7);
    v.push(0xf64c261c);
    v.push(0x94692934);
    v.push(0x411520f7);
    v.push(0x7602d4f7);
    v.push(0xbcf46b2e);
    v.push(0xd4a20068);
    v.push(0xd4082471);
    v.push(0x3320f46a);
    v.push(0x43b7d4b7);
    v.push(0x500061af);
    v.push(0x1e39f62e);
    v.push(0x97244546);
    v.push(0x14214f74);
    v.push(0xbf8b8840);
    v.push(0x4d95fc1d);
    v.push(0x96b591af);
    v.push(0x70f4ddd3);
    v.push(0x66a02f45);
    v.push(0xbfbc09ec);
    v.push(0x03bd9785);
    v.push(0x7fac6dd0);
    v.push(0x31cb8504);
    v.push(0x96eb27b3);
    v.push(0x55fd3941);
    v.push(0xda2547e6);
    v.push(0xabca0a9a);
    v.push(0x28507825);
    v.push(0x530429f4);
    v.push(0x0a2c86da);
    v.push(0xe9b66dfb);
    v.push(0x68dc1462);
    v.push(0xd7486900);
    v.push(0x680ec0a4);
    v.push(0x27a18dee);
    v.push(0x4f3ffea2);
    v.push(0xe887ad8c);
    v.push(0xb58ce006);
    v.push(0x7af4d6b6);
    v.push(0xaace1e7c);
    v.push(0xd3375fec);
    v.push(0xce78a399);
    v.push(0x406b2a42);
    v.push(0x20fe9e35);
    v.push(0xd9f385b9);
    v.push(0xee39d7ab);
    v.push(0x3b124e8b);
    v.push(0x1dc9faf7);
    v.push(0x4b6d1856);
    v.push(0x26a36631);
    v.push(0xeae397b2);
    v.push(0x3a6efa74);
    v.push(0xdd5b4332);
    v.push(0x6841e7f7);
    v.push(0xca7820fb);
    v.push(0xfb0af54e);
    v.push(0xd8feb397);
    v.push(0x454056ac);
    v.push(0xba489527);
    v.push(0x55533a3a);
    v.push(0x20838d87);
    v.push(0xfe6ba9b7);
    v.push(0xd096954b);
    proof {
        assert(v@ =~= old(v)@ + s_init_8());
    }
}

/// Entries 576 to 639 of the flattened initial S-boxes.
pub open spec fn s_init_9() -> Seq<u32> {
    seq![
        0x55a867bcu32, 0xa1159a58u32, 0xcca92963u32, 0x99e1db33u32, 0xa62a4a56u32, 0x3f3125f9u32, 0x5ef47e1cu32, 0x9029317cu32,
        0xfdf8e802u32, 0x04272f70u32, 0x80bb155cu32, 0x05282ce3u32, 0x95c11548u32, 0xe4c66d22u32, 0x48c1133fu32, 0xc70f86dcu32,
        0x07f9c9eeu32, 0x41041f0fu32, 0x404779a4u32, 0x5d886e17u32, 0x325f51ebu32, 0xd59bc0d1u32, 0xf2bcc18fu32, 0x41113564u32,
        0x257b7834u32, 0x602a9c60u32, 0xdff8e8a3u32, 0x1f636c1bu32, 0x0e12b4c2u32, 0x02e1329eu32, 0xaf664fd1u32, 0xcad18115u32,
        0x6b2395e0u32, 0x333e92e1u32, 0x3b240b62u32, 0xeebeb922u32, 0x85b2a20eu32, 0xe6ba0d99u32, 0xde720c8cu32, 0x2da2f728u32,
        0xd0127845u32, 0x95b794fdu32, 0x647d0862u32, 0xe7ccf5f0u32, 0x5449a36fu32, 0x877d48fau32, 0xc39dfd27u32, 0xf33e8d1eu32,
        0x0a476341u32, 0x992eff74u32, 0x3a6f6eabu32, 0xf4f8fd37u32, 0xa812dc60u32, 0xa1ebddf8u32, 0x991be14cu32, 0xdb6e6b0du32,
        0xc67b5510u32, 0x6d672c37u32, 0x2765d43bu32, 0xdcd0e804u32, 0xf1290dc7u32, 0xcc00ffa3u32, 0xb5390f92u32, 0x690fed0bu32,
    ]
}

/// Appends entries 576 to 639 of the flattened initial S-boxes to `v`.
pub fn push_s_init_9(v: &mut Vec<u32>)
    ensures
        final(v)@ == old(v)@ + s_init_9(),
{
    v.push(0x55a867bc);
    v.push(0xa1159a58);
    v.push(0xcca92963);
    v.push(0x99e1db33);
    v.push(0xa62a4a56);
    v.push(0x3f3125f9);
    v.push(0x5ef47e1c);
    v.push(0x9029317c);
    v.push(0xfdf8e802);
    v.push(0x04272f70);
    v.push(0x80bb155c);
    v.push(0x05282ce3);
    v.push(0x95c11548);
    v.push(0xe4c66d22);
    v.push(0x48c1133f);
    v.push(0xc70f86dc);
    v.push(0x07f9c9ee);
    v.push(0x41041f0f);
    v.push(0x404779a4);
    v.push(0x5d886e17);
    v.push(0x325f51eb);
    v.push(0xd59bc0d1);
    v.push(0xf2bcc18f);
    v.push(0x41113564);
    v.push(0x257b7834);
    v.push(0x602a9c60);
    v.push(0xdff8e8a3);
    v.push(0x1f636c1b);
    v.push(0x0e12b4c2);
    v.push(0x02e1329e);
    v.push(0xaf664fd1);
    v.push(0xcad18115);
    v.push(0x6b2395e0);
    v.push(0x333e92e1);
    v.push(0x3b240b62);
    v.push(0xeebeb922);
    v.push(0x85b2a20e);
    v.push(0xe6ba0d99);
    v.push(0xde720c8c);
    v.push(0x2da2f728);
    v.push(0xd0127845);
    v.push(0x95b794fd);
    v.push(0x647d0862);
    v.push(0xe7ccf5f0);
    v.push(0x5449a36f);
    v.push(0x877d48fa);
    v.push(0xc39dfd27);
    v.push(0xf33e8d1e);
    v.push(0x0a476341);
    v.push(0x992eff74);
    v.push(0x3a6f6eab);
    v.push(0xf4f8fd37);
    v.push(0xa812dc60);
    v.push(0xa1ebddf8);
    v.push(0x991be14c);
    v.push(0xdb6e6b0d);
    v.push(0xc67b5510);
    v.push(0x6d672c37);
    v.push(0x2765d43b);
    v.push(0xdcd0e804);
    v.push(0xf1290dc7);
    v.push(0xcc00ffa3);
    v.push(0xb5390f92);
    v.push(0x690fed0b);
    proof {
        assert(v@ =~= old(v)@ + s_init_9());
    }
}

/// Entries 640 to 703 of the flattened initial S-boxes.
pub open spec fn s_init_10() -> Seq<u32> {
    seq![
        0x667b9ffbu32, 0xcedb7d9cu32, 0xa091cf0bu32, 0xd9155ea3u32, 0xbb132f88u32, 0x515bad24u32, 0x7b9479bfu32, 0x763bd6ebu32,
        0x37392eb3u32, 0xcc115979u32, 0x8026e297u32, 0xf42e312du32, 0x6842ada7u32, 0xc66a2b3bu32, 0x12754cccu32, 0x782ef11cu32,
        0x6a124237u32, 0xb79251e7u32, 0x06a1bbe6u32, 0x4bfb6350u32, 0x1a6b1018u32, 0x11caedfau32, 0x3d25bdd8u32, 0xe2e1c3c9u32,
        0x44421659u32, 0x0a121386u32, 0xd90cec6eu32, 0xd5abea2au32, 0x64af674eu32, 0xda86a85fu32, 0xbebfe988u32, 0x64e4c3feu32,
        0x9dbc8057u32, 0xf0f7c086u32, 0x60787bf8u32, 0x6003604du32, 0xd1fd8346u32, 0xf6381fb0u32, 0x7745ae04u32, 0xd736fcccu32,
        0x83426b33u32, 0xf01eab71u32, 0xb0804187u32, 0x3c005e5fu32, 0x77a057beu32, 0xbde8ae24u32, 0x55464299u32, 0xbf582e61u32,
        0x4e58f48fu32, 0xf2ddfda2u32, 0xf474ef38u32, 0x8789bdc2u32, 0x5366f9c3u32, 0xc8b38e74u32, 0xb475f255u32, 0x46fcd9b9u32,
        0x7aeb2661u32, 0x8b1ddf84u32, 0x846a0e79u32, 0x915f95e2u32, 0x466e598eu32, 0x20b45770u32, 0x8cd55591u32, 0xc902de4cu32,
    ]
}

/// Appends entries 640 to 703 of the flattened initial S-boxes to `v`.
pub fn push_s_init_10(v: &mut Vec<u32>)
    ensures
        final(v)@ == old(v)@ + s_init_10(),
{
    v.push(0x667b9ffb);
    v.push(0xcedb7d9c);
    v.push(0xa091cf0b);
    v.push(0xd9155ea3);
    v.push(0xbb132f88);
    v.push(0x515bad24);
    v.push(0x7b9479bf);
    v.push(0x763bd6eb);
    v.push(0x37392eb3);
    v.push(0xcc115979);
    v.push(0x8026e297);
    v.push(0xf42e312d);
    v.push(0x6842ada7);
    v.push(0xc66a2b3b);
    v.push(0x12754ccc);
    v.push(0x782ef11c);
    v.push(0x6a124237);
    v.push(0xb79251e7);
    v.push(0x06a1bbe6);
    v.push(0x4bfb6350);
    v.push(0x1a6b1018);
    v.push(0x11caedfa);
    v.push(0x3d25bdd8);
    v.push(0xe2e1c3c9);
    v.push(0x44421659);
    v.push(0x0a121386);
    v.push(0xd90cec6e);
    v.push(0xd5abea2a);
    v.push(0x64af674e);
    v.push(0xda86a85f);
    v.push(0xbebfe988);
    v.push(0x64e4c3fe);
    v.push(0x9dbc8057);
    v.push(0xf0f7c086);
    v.push(0x60787bf8);
    v.push(0x6003604d);
    v.push(0xd1fd8346);
    v.push(0xf6381fb0);
    v.push(0x7745ae04);
    v.push(0xd736fccc);
    v.push(0x83426b33);
    v.push(0xf01eab71);
    v.push(0xb0804187);
    v.push(0x3c005e5f);
    v.push(0x77a057be);
    v.push(0xbde8ae24);
    v.push(0x55464299);
    v.push(0xbf582e61);
    v.push(0x4e58f48f);
    v.push(0xf2ddfda2);
    v.push(0xf474ef38);
    v.push(0x8789bdc2);
    v.push(0x5366f9c3);
    v.push(0xc8b38e74);
    v.push(0xb475f255);
    v.push(0x46fcd9b9);
    v.push(0x7aeb2661);
    v.push(0x8b1ddf84);
    v.push(0x846a0e79);
    v.push(0x915f95e2);
    v.push(0x466e598e);
    v.push(0x20b45770);
    v.push(0x8cd55591);
    v.push(0xc902de4c);
    proof {
        assert(v@ =~= old(v)@ + s_init_10());
    }
}

/// Entries 704 to 767 of the flattened initial S-boxes.
pub open spec fn s_init_11() -> Seq<u32> {
    seq![
        0xb90bace1u32, 0xbb8205d0u32, 0x11a86248u32, 0x7574a99eu32, 0xb77f19b6u32, 0xe0a9dc09u32, 0x662d09a1u32, 0xc4324633u32,
        0xe85a1f02u32, 0x09f0be8cu32, 0x4a99a025u32, 0x1d6efe10u32, 0x1ab93d1du32, 0x0ba5a4dfu32, 0xa186f20fu32, 0x2868f169u32,
        0xdcb7da83u32, 0x573906feu32, 0xa1e2ce9bu32, 0x4fcd7f52u32, 0x50115e01u32, 0xa70683fau32, 0xa002b5c4u32, 0x0de6d027u32,
        0x9af88c27u32, 0x773f8641u32, 0xc3604c06u32, 0x61a806b5u32, 0xf0177a28u32, 0xc0f586e0u32, 0x006058aau32, 0x30dc7d62u32,
        0x11e69ed7u32, 0x2338ea63u32, 0x53c2dd94u32, 0xc2c21634u32, 0xbbcbee56u32, 0x90bcb6deu32, 0xebfc7da1u32, 0xce591d76u32,
        0x6f05e409u32, 0x4b7c0188u32, 0x39720a3du32, 0x7c927c24u32, 0x86e3725fu32, 0x724d9db9u32, 0x1ac15bb4u32, 0xd39eb8fcu32,
        0xed545578u32, 0x08fca5b5u32, 0xd83d7cd3u32, 0x4dad0fc4u32, 0x1e50ef5eu32, 0xb161e6f8u32, 0xa28514d9u32, 0x6c51133cu32,
        0x6fd5c7e7u32, 0x56e14ec4u32, 0x362abfceu32, 0xddc6c837u32, 0xd79a3234u32, 0x92638212u32, 0x670efa8eu32, 0x406000e0u32,
    ]
}

/// Appends entries 704 to 767 of the flattened initial S-boxes to `v`.
pub fn push_s_init_11(v: &mut Vec<u32>)
    ensures
        final(v)@ == old(v)@ + s_init_11(),
{
    v.push(0xb90bace1);
    v.push(0xbb8205d0);
    v.push(0x11a86248);
    v.push(0x7574a99e);
    v.push(0xb77f19b6);
    v.push(0xe0a9dc09);
    v.push(0x662d09a1);
    v.push(0xc4324633);
    v.push(0xe85a1f02);
    v.push(0x09f0be8c);
    v.push(0x4a99a025);
    v.push(0x1d6efe10);
    v.push(0x1ab93d1d);
    v.push(0x0ba5a4df);
    v.push(0xa186f20f);
    v.push(0x2868f169);
    v.push(0xdcb7da83);
    v.push(0x573906fe);
    v.push(0xa1e2ce9b);
    v.push(0x4fcd7f52);
    v.push(0x50115e01);
    v.push(0xa70683fa);
    v.push(0xa002b5c4);
    v.push(0x0de6d027);
    v.push(0x9af88c27);
    v.push(0x773f8641);
    v.push(0xc3604c06);
    v.push(0x61a806b5);
    v.push(0xf0177a28);
    v.push(0xc0f586e0);
    v.push(0x006058aa);
    v.push(0x30dc7d62);
    v.push(0x11e69ed7);
    v.push(0x2338ea63);
    v.push(0x53c2dd94);
    v.push(0xc2c21634);
    v.push(0xbbcbee56);
    v.push(0x90bcb6de);
    v.push(0xebfc7da1);
    v.push(0xce591d76);
    v.push(0x6f05e409);
    v.push(0x4b7c0188);
    v.push(0x39720a3d);
    v.push(0x7c927c24);
    v.push(0x86e3725f);
    v.push(0x724d9db9);
    v.push(0x1ac15bb4);
    v.push(0xd39eb8fc);
    v.push(0xed545578);
    v.push(0x08fca5b5);
    v.push(0xd83d7cd3);
    v.push(0x4dad0fc4);
    v.push(0x1e50ef5e);
    v.push(0xb161e6f8);
    v.push(0xa28514d9);
    v.push(0x6c51133c);
    v.push(0x6fd5c7e7);
    v.push(0x56e14ec4);
    v.push(0x362abfce);
    v.push(0xddc6c837);
    v.push(0xd79a3234);
    v.push(0x92638212);
    v.push(0x670efa8e);
    v.push(0x406000e0);
    proof {
        assert(v@ =~= old(v)@ + s_init_11());
    }
}

/// Entries 768 to 831 of the flattened initial S-boxes.
pub open spec fn s_init_12() -> Seq<u32> {
    seq![
        0x3a39ce37u32, 0xd3faf5cfu32, 0xabc27737u32, 0x5ac52d1bu32, 0x5cb0679eu32, 0x4fa33742u32, 0xd3822740u32, 0x99bc9bbeu32,
        0xd5118e9du32, 0xbf0f7315u32, 0xd62d1c7eu32, 0xc700c47bu32, 0xb78c1b6bu32, 0x21a19045u32, 0xb26eb1beu32, 0x6a366eb4u32,
        0x5748ab2fu32, 0xbc946e79u32, 0xc6a376d2u32, 0x6549c2c8u32, 0x530ff8eeu32, 0x468dde7du32, 0xd5730a1du32, 0x4cd04dc6u32,
        0x2939bbdbu32, 0xa9ba4650u32, 0xac9526e8u32, 0xbe5ee304u32, 0xa1fad5f0u32, 0x6a2d519au32, 0x63ef8ce2u32, 0x9a86ee22u32,
        0xc089c2b8u32, 0x43242ef6u32, 0xa51e03aau32, 0x9cf2d0a4u32, 0x83c061bau32, 0x9be96a4du32, 0x8fe51550u32, 0xba645bd6u32,
        0x2826a2f9u32, 0xa73a3ae1u32, 0x4ba99586u32, 0xef5562e9u32, 0xc72fefd3u32, 0xf752f7dau32, 0x3f046f69u32, 0x77fa0a59u32,
        0x80e4a915u32, 0x87b08601u32, 0x9b09e6adu32, 0x3b3ee593u32, 0xe990fd5au32, 0x9e34d797u32, 0x2cf0b7d9u32, 0x022b8b51u32,
        0x96d5ac3au32, 0x017da67du32, 0xd1cf3ed6u32, 0x7c7d2d28u32, 0x1f9f25cfu32, 0xadf2b89bu32, 0x5ad6b472u32, 0x5a88f54cu32,
    ]
}

/// Appends entries 768 to 831 of the flattened initial S-boxes to `v`.
pub fn push_s_init_12(v: &mut Vec<u32>)
    ensures
        final(v)@ == old(v)@ + s_init_12(),
{
    v.push(0x3a39ce37);
    v.push(0xd3faf5cf);
    v.push(0xabc27737);
    v.push(0x5ac52d1b);
    v.push(0x5cb0679e);
    v.push(0x4fa33742);
    v.push(0xd3822740);
    v.push(0x99bc9bbe);
    v.push(0xd5118e9d);
    v.push(0xbf0f7315);
    v.push(0xd62d1c7e);
    v.push(0xc700c47b);
    v.push(0xb78c1b6b);
    v.push(0x21a19045);
    v.push(0xb26eb1be);
    v.push(0x6a366eb4);
    v.push(0x5748ab2f);
    v.push(0xbc946e79);
    v.push(0xc6a376d2);
    v.push(0x6549c2c8);
    v.push(0x530ff8ee);
    v.push(0x468dde7d);
    v.push(0xd5730a1d);
    v.push(0x4cd04dc6);
    v.push(0x2939bbdb);
    v.push(0xa9ba4650);
    v.push(0xac9526e8);
    v.push(0xbe5ee304);
    v.push(0xa1fad5f0);
    v.push(0x6a2d519a);
    v.push(0x63ef8ce2);
    v.push(0x9a86ee22);
    v.push(0xc089c2b8);
    v.push(0x43242ef6);
    v.push(0xa51e03aa);
    v.push(0x9cf2d0a4);
    v.push(0x83c061ba);
    v.push(0x9be96a4d);
    v.push(0x8fe51550);
    v.push(0xba645bd6);
    v.push(0x2826a2f9);
    v.push(0xa73a3ae1);
    v.push(0x4ba99586);
    v.push(0xef5562e9);
    v.push(0xc72fefd3);
    v.push(0xf752f7da);
    v.push(0x3f046f69);
    v.push(0x77fa0a59);
    v.push(0x80e4a915);
    v.push(0x87b08601);
    v.push(0x9b09e6ad);
    v.push(0x3b3ee593);
    v.push(0xe990fd5a);
    v.push(0x9e34d797);
    v.push(0x2cf0b7d9);
    v.push(0x022b8b51);
    v.push(0x96d5ac3a);
    v.push(0x017da67d);
    v.push(0xd1cf3ed6);
    v.push(0x7c7d2d28);
    v.push(0x1f9f25cf);
    v.push(0xadf2b89b);
    v.push(0x5ad6b472);
    v.push(0x5a88f54c);
    proof {
        assert(v@ =~= old(v)@ + s_init_12());
    }
}

/// Entries 832 to 895 of the flattened initial S-boxes.
pub open spec fn s_init_13() -> Seq<u32> {
    seq![
        0xe029ac71u32, 0xe019a5e6u32, 0x47b0acfdu32, 0xed93fa9bu32, 0xe8d3c48du32, 0x283b57ccu32, 0xf8d56629u32, 0x79132e28u32,
        0x785f0191u32, 0xed756055u32, 0xf7960e44u32, 0xe3d35e8cu32, 0x15056dd4u32, 0x88f46dbau32, 0x03a16125u32, 0x0564f0bdu32,
        0xc3eb9e15u32, 0x3c9057a2u32, 0x97271aecu32, 0xa93a072au32, 0x1b3f6d9bu32, 0x1e6321f5u32, 0xf59c66fbu32, 0x26dcf319u32,
        0x7533d928u32, 0xb155fdf5u32, 0x03563482u32, 0x8aba3cbbu32, 0x28517711u32, 0xc20ad9f8u32, 0xabcc5167u32, 0xccad925fu32,
        0x4de81751u32, 0x3830dc8eu32, 0x379d5862u32, 0x9320f991u32, 0xea7a90c2u32, 0xfb3e7bceu32, 0x5121ce64u32, 0x774fbe32u32,
        0xa8b6e37eu32, 0xc3293d46u32, 0x48de5369u32, 0x6413e680u32, 0xa2ae0810u32, 0xdd6db224u32, 0x69852dfdu32, 0x09072166u32,
        0xb39a460au32, 0x6445c0ddu32, 0x586cdecfu32, 0x1c20c8aeu32, 0x5bbef7ddu32, 0x1b588d40u32, 0xccd2017fu32, 0x6bb4e3bbu32,
        0xdda26a7eu32, 0x3a59ff45u32, 0x3e350a44u32, 0xbcb4cdd5u32, 0x72eacea8u32, 0xfa6484bbu32, 0x8d6612aeu32, 0xbf3c6f47u32,
    ]
}

/// Appends entries 832 to 895 of the flattened initial S-boxes to `v`.
pub fn push_s_init_13(v: &mut Vec<u32>)
    ensures
        final(v)@ == old(v)@ + s_init_13(),
{
    v.push(0xe029ac71);
    v.push(0xe019a5e6);
    v.push(0x47b0acfd);
    v.push(0xed93fa9b);
    v.push(0xe8d3c48d);
    v.push(0x283b57cc);
    v.push(0xf8d56629);
    v.push(0x79132e28);
    v.push(0x785f0191);
    v.push(0xed756055);
    v.push(0xf7960e44);
    v.push(0xe3d35e8c);
    v.push(0x15056dd4);
    v.push(0x88f46dba);
    v.push(0x03a16125);
    v.push(0x0564f0bd);
    v.push(0xc3eb9e15);
    v.push(0x3c9057a2);
    v.push(0x97271aec);
    v.push(0xa93a072a);
    v.push(0x1b3f6d9b);
    v.push(0x1e6321f5);
    v.push(0xf59c66fb);
    v.push(0x26dcf319);
    v.push(0x7533d928);
    v.push(0xb155fdf5);
    v.push(0x03563482);
    v.push(0x8aba3cbb);
    v.push(0x28517711);
    v.push(0xc20ad9f8);
    v.push(0xabcc5167);
    v.push(0xccad925f);
    v.push(0x4de81751);
    v.push(0x3830dc8e);
    v.push(0x379d5862);
    v.push(0x9320f991);
    v.push(0xea7a90c2);
    v.push(0xfb3e7bce);
    v.push(0x5121ce64);
    v.push(0x774fbe32);
    v.push(0xa8b6e37e);
    v.push(0xc3293d46);
    v.push(0x48de5369);
    v.push(0x6413e680);
    v.push(0xa2ae0810);
    v.push(0xdd6db224);
    v.push(0x69852dfd);
    v.push(0x09072166);
    v.push(0xb39a460a);
    v.push(0x6445c0dd);
    v.push(0x586cdecf);
    v.push(0x1c20c8ae);
    v.push(0x5bbef7dd);
    v.push(0x1b588d40);
    v.push(0xccd2017f);
    v.push(0x6bb4e3bb);
    v.push(0xdda26a7e);
    v.push(0x3a59ff45);
    v.push(0x3e350a44);
    v.push(0xbcb4cdd5);
    v.push(0x72eacea8);
    v.push(0xfa6484bb);
    v.push(0x8d6612ae);
    v.push(0xbf3c6f47);
    proof {
        assert(v@ =~= old(v)@ + s_init_13());
    }
}

/// Entries 896 to 959 of the flattened initial S-boxes.
pub open spec fn s_init_14() -> Seq<u32> {
    seq![
        0xd29be463u32, 0x542f5d9eu32, 0xaec2771bu32, 0xf64e6370u32, 0x740e0d8du32, 0xe75b1357u32, 0xf8721671u32, 0xaf537d5du32,
        0x4040cb08u32, 0x4eb4e2ccu32, 0x34d2466au32, 0x0115af84u32, 0xe1b00428u32, 0x95983a1du32, 0x06b89fb4u32, 0xce6ea048u32,
        0x6f3f3b82u32, 0x3520ab82u32, 0x011a1d4bu32, 0x277227f8u32, 0x611560b1u32, 0xe7933fdcu32, 0xbb3a792bu32, 0x344525bdu32,
        0xa08839e1u32, 0x51ce794bu32, 0x2f32c9b7u32, 0xa01fbac9u32, 0xe01cc87eu32, 0xbcc7d1f6u32, 0xcf0111c3u32, 0xa1e8aac7u32,
        0x1a908749u32, 0xd44fbd9au32, 0xd0dadecbu32, 0xd50ada38u32, 0x0339c32au32, 0xc6913667u32, 0x8df9317cu32, 0xe0b12b4fu32,
        0xf79e59b7u32, 0x43f5bb3au32, 0xf2d519ffu32, 0x27d9459cu32, 0xbf97222cu32, 0x15e6fc2au32, 0x0f91fc71u32, 0x9b941525u32,
        0xfae59361u32, 0xceb69cebu32, 0xc2a86459u32, 0x12baa8d1u32, 0xb6c1075eu32, 0xe3056a0cu32, 0x10d25065u32, 0xcb03a442u32,
        0xe0ec6e0eu32, 0x1698db3bu32, 0x4c98a0beu32, 0x3278e964u32, 0x9f1f9532u32, 0xe0d392dfu32, 0xd3a0342bu32, 0x8971f21eu32,
    ]
}

/// Appends entries 896 to 959 of the flattened initial S-boxes to `v`.
pub fn push_s_init_14(v: &mut Vec<u32>)
    ensures
        final(v)@ == old(v)@ + s_init_14(),
{
    v.push(0xd29be463);
    v.push(0x542f5d9e);
    v.push(0xaec2771b);
    v.push(0xf64e6370);
    v.push(0x740e0d8d);
    v.push(0xe75b1357);
    v.push(0xf8721671);
    v.push(0xaf537d5d);
    v.push(0x4040cb08);
    v.push(0x4eb4e2cc);
    v.push(0x34d2466a);
    v.push(0x0115af84);
    v.push(0xe1b00428);
    v.push(0x95983a1d);
    v.push(0x06b89fb4);
    v.push(0xce6ea048);
    v.push(0x6f3f3b82);
    v.push(0x3520ab82);
    v.push(0x011a1d4b);
    v.push(0x277227f8);
    v.push(0x611560b1);
    v.push(0xe7933fdc);
    v.push(0xbb3a792b);
    v.push(0x344525bd);
    v.push(0xa08839e1);
    v.push(0x51ce794b);
    v.push(0x2f32c9b7);
    v.push(0xa01fbac9);
    v.push(0xe01cc87e);
    v.push(0xbcc7d1f6);
    v.push(0xcf0111c3);
    v.push(0xa1e8aac7);
    v.push(0x1a908749);
    v.push(0xd44fbd9a);
    v.push(0xd0dadecb);
    v.push(0xd50ada38);
    v.push(0x0339c32a);
    v.push(0xc6913667);
    v.push(0x8df9317c);
    v.push(0xe0b12b4f);
    v.push(0xf79e59b7);
    v.push(0x43f5bb3a);
    v.push(0xf2d519ff);
    v.push(0x27d9459c);
    v.push(0xbf97222c);
    v.push(0x15e6fc2a);
    v.push(0x0f91fc71);
    v.push(0x9b941525);
    v.push(0xfae59361);
    v.push(0xceb69ceb);
    v.push(0xc2a86459);
    v.push(0x12baa8d1);
    v.push(0xb6c1075e);
    v.push(0xe3056a0c);
    v.push(0x10d25065);
    v.push(0xcb03a442);
    v.push(0xe0ec6e0e);
    v.push(0x1698db3b);
    v.push(0x4c98a0be);
    v.push(0x3278e964);
    v.push(0x9f1f9532);
    v.push(0xe0d392df);
    v.push(0xd3a0342b);
    v.push(0x8971f21e);
    proof {
        assert(v@ =~= old(v)@ + s_init_14());
    }
}

/// Entries 960 to 1023 of the flattened initial S-boxes.
pub open spec fn s_init_15() -> Seq<u32> {
    seq![
        0x1b0a7441u32, 0x4ba3348cu32, 0xc5be7120u32, 0xc37632d8u32, 0xdf359f8du32, 0x9b992f2eu32, 0xe60b6f47u32, 0x0fe3f11du32,
        0xe54cda54u32, 0x1edad891u32, 0xce6279cfu32, 0xcd3e7e6fu32, 0x1618b166u32, 0xfd2c1d05u32, 0x848fd2c5u32, 0xf6fb2299u32,
        0xf523f357u32, 0xa6327623u32, 0x93a83531u32, 0x56cccd02u32, 0xacf08162u32, 0x5a75ebb5u32, 0x6e163697u32, 0x88d273ccu32,
        0xde966292u32, 0x81b949d0u32, 0x4c50901bu32, 0x71c65614u32, 0xe6c6c7bdu32, 0x327a140au32, 0x45e1d006u32, 0xc3f27b9au32,
        0xc9aa53fdu32, 0x62a80f00u32, 0xbb25bfe2u32, 0x35bdd2f6u32, 0x71126905u32, 0xb2040222u32, 0xb6cbcf7cu32, 0xcd769c2bu32,
        0x53113ec0u32, 0x1640e3d3u32, 0x38abbd60u32, 0x2547adf0u32, 0xba38209cu32, 0xf746ce76u32, 0x77afa1c5u32, 0x20756060u32,
        0x85cbfe4eu32, 0x8ae88dd8u32, 0x7aaaf9b0u32, 0x4cf9aa7eu32, 0x1948c25cu32, 0x02fb8a8cu32, 0x01c36ae4u32, 0xd6ebe1f9u32,
        0x90d4f869u32, 0xa65cdea0u32, 0x3f09252du32, 0xc208e69fu32, 0xb74e6132u32, 0xce77e25bu32, 0x578fdfe3u32, 0x3ac372e6u32,
    ]
}

/// Appends entries 960 to 1023 of the flattened initial S-boxes to `v`.
pub fn push_s_init_15(v: &mut Vec<u32>)
    ensures
        final(v)@ == old(v)@ + s_init_15(),
{
    v.push(0x1b0a7441);
    v.push(0x4ba3348c);
    v.push(0xc5be7120);
    v.push(0xc37632d8);
    v.push(0xdf359f8d);
    v.push(0x9b992f2e);
    v.push(0xe60b6f47);
    v.push(0x0fe3f11d);
    v.push(0xe54cda54);
    v.push(0x1edad891);
    v.push(0xce6279cf);
    v.push(0xcd3e7e6f);
    v.push(0x1618b166);
    v.push(0xfd2c1d05);
    v.push(0x848fd2c5);
    v.push(0xf6fb2299);
    v.push(0xf523f357);
    v.push(0xa6327623);
    v.push(0x93a83531);
    v.push(0x56cccd02);
    v.push(0xacf08162);
    v.push(0x5a75ebb5);
    v.push(0x6e163697);
    v.push(0x88d273cc);
    v.push(0xde966292);
    v.push(0x81b949d0);
    v.push(0x4c50901b);
    v.push(0x71c65614);
    v.push(0xe6c6c7bd);
    v.push(0x327a140a);
    v.push(0x45e1d006);
    v.push(0xc3f27b9a);
    v.push(0xc9aa53fd);
    v.push(0x62a80f00);
    v.push(0xbb25bfe2);
    v.push(0x35bdd2f6);
    v.push(0x71126905);
    v.push(0xb2040222);
    v.push(0xb6cbcf7c);
    v.push(0xcd769c2b);
    v.push(0x53113ec0);
    v.push(0x1640e3d3);
    v.push(0x38abbd60);
    v.push(0x2547adf0);
    v.push(0xba38209c);
    v.push(0xf746ce76);
    v.push(0x77afa1c5);
    v.push(0x20756060);
    v.push(0x85cbfe4e);
    v.push(0x8ae88dd8);
    v.push(0x7aaaf9b0);
    v.push(0x4cf9aa7e);
    v.push(0x1948c25c);
    v.push(0x02fb8a8c);
    v.push(0x01c36ae4);
    v.push(0xd6ebe1f9);
    v.push(0x90d4f869);
    v.push(0xa65cdea0);
    v.push(0x3f09252d);
    v.push(0xc208e69f);
    v.push(0xb74e6132);
    v.push(0xce77e25b);
    v.push(0x578fdfe3);
    v.push(0x3ac372e6);
    proof {
        assert(v@ =~= old(v)@ + s_init_15());
    }
}

/// The 1024 entries of the flattened initial S-boxes.
pub open spec fn s_init() -> Seq<u32> {
    s_init_0() + s_init_1() + s_init_2() + s_init_3() + s_init_4() + s_init_5() + s_init_6() + s_init_7() + s_init_8() + s_init_9() + s_init_10() + s_init_11() + s_init_12() + s_init_13() + s_init_14() + s_init_15()
}

/// Builds the flattened initial S-boxes.
pub fn s_init_vec() -> (v: Vec<u32>)
    ensures
        v@ == s_init(),
{
    let mut v: Vec<u32> = Vec::new();
    push_s_init_0(&mut v);
    push_s_init_1(&mut v);
    push_s_init_2(&mut v);
    push_s_init_3(&mut v);
    push_s_init_4(&mut v);
    push_s_init_5(&mut v);
    push_s_init_6(&mut v);
    push_s_init_7(&mut v);
    push_s_init_8(&mut v);
    push_s_init_9(&mut v);
    push_s_init_10(&mut v);
    push_s_init_11(&mut v);
    push_s_init_12(&mut v);
    push_s_init_13(&mut v);
    push_s_init_14(&mut v);
    push_s_init_15(&mut v);
    proof {
        assert(Seq::<u32>::empty() + s_init_0() =~= s_init_0());
    }
    v
}

/// Builds the initial subkeys.
pub fn p_init_vec() -> (v: Vec<u32>)
    ensures
        v@ == p_init(),
{
    let mut v: Vec<u32> = Vec::new();
    push_p_init(&mut v);
    proof {
        assert(Seq::<u32>::empty() + p_init() =~= p_init());
    }
    v
}

} // verus!
