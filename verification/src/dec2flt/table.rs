//! Pre-computed 128-bit approximations of the powers of five, and what they
//! approximate.

use crate::dec2flt::digits::{lemma_pow5, pow5};
use vstd::arithmetic::power2::{lemma2_to64, lemma_pow2_unfold, pow2};
use vstd::prelude::*;

verus! {

/// The smallest decimal exponent with an entry in [`POWER_OF_FIVE_128`].
pub const SMALLEST_POWER_OF_FIVE: i32 = -342;

/// The largest decimal exponent with an entry in [`POWER_OF_FIVE_128`].
pub const LARGEST_POWER_OF_FIVE: i32 = 308;

/// The number of entries of [`POWER_OF_FIVE_128`].
pub const N_POWERS_OF_FIVE: usize = 651;

/// The most significant 128 bits of `5^q`, for `q` from
/// [`SMALLEST_POWER_OF_FIVE`] to [`LARGEST_POWER_OF_FIVE`], each as the pair
/// of its upper and its lower 64 bits.
///
/// Every entry is scaled by a power of two so that its top bit is set. For
/// `q >= 0` the entry is `5^q`, cut off after 128 bits; for `q < 0` it
/// approximates the reciprocal of `5^-q` to within one unit of its last bit.
/// [`lemma_power_table`] has the details.
pub const POWER_OF_FIVE_128: [(u64, u64); 651] = [
    (0xeef453d6923bd65a, 0x113faa2906a13b3f),  // 5^-342
    (0x9558b4661b6565f8, 0x4ac7ca59a424c507),  // 5^-341
    (0xbaaee17fa23ebf76, 0x5d79bcf00d2df649),  // 5^-340
    (0xe95a99df8ace6f53, 0xf4d82c2c107973dc),  // 5^-339
    (0x91d8a02bb6c10594, 0x79071b9b8a4be869),  // 5^-338
    (0xb64ec836a47146f9, 0x9748e2826cdee284),  // 5^-337
    (0xe3e27a444d8d98b7, 0xfd1b1b2308169b25),  // 5^-336
    (0x8e6d8c6ab0787f72, 0xfe30f0f5e50e20f7),  // 5^-335
    (0xb208ef855c969f4f, 0xbdbd2d335e51a935),  // 5^-334
    (0xde8b2b66b3bc4723, 0xad2c788035e61382),  // 5^-333
    (0x8b16fb203055ac76, 0x4c3bcb5021afcc31),  // 5^-332
    (0xaddcb9e83c6b1793, 0xdf4abe242a1bbf3d),  // 5^-331
    (0xd953e8624b85dd78, 0xd71d6dad34a2af0d),  // 5^-330
    (0x87d4713d6f33aa6b, 0x8672648c40e5ad68),  // 5^-329
    (0xa9c98d8ccb009506, 0x680efdaf511f18c2),  // 5^-328
    (0xd43bf0effdc0ba48, 0x0212bd1b2566def2),  // 5^-327
    (0x84a57695fe98746d, 0x014bb630f7604b57),  // 5^-326
    (0xa5ced43b7e3e9188, 0x419ea3bd35385e2d),  // 5^-325
    (0xcf42894a5dce35ea, 0x52064cac828675b9),  // 5^-324
    (0x818995ce7aa0e1b2, 0x7343efebd1940993),  // 5^-323
    (0xa1ebfb4219491a1f, 0x1014ebe6c5f90bf8),  // 5^-322
    (0xca66fa129f9b60a6, 0xd41a26e077774ef6),  // 5^-321
    (0xfd00b897478238d0, 0x8920b098955522b4),  // 5^-320
    (0x9e20735e8cb16382, 0x55b46e5f5d5535b0),  // 5^-319
    (0xc5a890362fddbc62, 0xeb2189f734aa831d),  // 5^-318
    (0xf712b443bbd52b7b, 0xa5e9ec7501d523e4),  // 5^-317
    (0x9a6bb0aa55653b2d, 0x47b233c92125366e),  // 5^-316
    (0xc1069cd4eabe89f8, 0x999ec0bb696e840a),  // 5^-315
    (0xf148440a256e2c76, 0xc00670ea43ca250d),  // 5^-314
    (0x96cd2a865764dbca, 0x380406926a5e5728),  // 5^-313
    (0xbc807527ed3e12bc, 0xc605083704f5ecf2),  // 5^-312
    (0xeba09271e88d976b, 0xf7864a44c633682e),  // 5^-311
    (0x93445b8731587ea3, 0x7ab3ee6afbe0211d),  // 5^-310
    (0xb8157268fdae9e4c, 0x5960ea05bad82964),  // 5^-309
    (0xe61acf033d1a45df, 0x6fb92487298e33bd),  // 5^-308
    (0x8fd0c16206306bab, 0xa5d3b6d479f8e056),  // 5^-307
    (0xb3c4f1ba87bc8696, 0x8f48a4899877186c),  // 5^-306
    (0xe0b62e2929aba83c, 0x331acdabfe94de87),  // 5^-305
    (0x8c71dcd9ba0b4925, 0x9ff0c08b7f1d0b14),  // 5^-304
    (0xaf8e5410288e1b6f, 0x07ecf0ae5ee44dd9),  // 5^-303
    (0xdb71e91432b1a24a, 0xc9e82cd9f69d6150),  // 5^-302
    (0x892731ac9faf056e, 0xbe311c083a225cd2),  // 5^-301
    (0xab70fe17c79ac6ca, 0x6dbd630a48aaf406),  // 5^-300
    (0xd64d3d9db981787d, 0x092cbbccdad5b108),  // 5^-299
    (0x85f0468293f0eb4e, 0x25bbf56008c58ea5),  // 5^-298
    (0xa76c582338ed2621, 0xaf2af2b80af6f24e),  // 5^-297
    (0xd1476e2c07286faa, 0x1af5af660db4aee1),  // 5^-296
    (0x82cca4db847945ca, 0x50d98d9fc890ed4d),  // 5^-295
    (0xa37fce126597973c, 0xe50ff107bab528a0),  // 5^-294
    (0xcc5fc196fefd7d0c, 0x1e53ed49a96272c8),  // 5^-293
    (0xff77b1fcbebcdc4f, 0x25e8e89c13bb0f7a),  // 5^-292
    (0x9faacf3df73609b1, 0x77b191618c54e9ac),  // 5^-291
    (0xc795830d75038c1d, 0xd59df5b9ef6a2417),  // 5^-290
    (0xf97ae3d0d2446f25, 0x4b0573286b44ad1d),  // 5^-289
    (0x9becce62836ac577, 0x4ee367f9430aec32),  // 5^-288
    (0xc2e801fb244576d5, 0x229c41f793cda73f),  // 5^-287
    (0xf3a20279ed56d48a, 0x6b43527578c1110f),  // 5^-286
    (0x9845418c345644d6, 0x830a13896b78aaa9),  // 5^-285
    (0xbe5691ef416bd60c, 0x23cc986bc656d553),  // 5^-284
    (0xedec366b11c6cb8f, 0x2cbfbe86b7ec8aa8),  // 5^-283
    (0x94b3a202eb1c3f39, 0x7bf7d71432f3d6a9),  // 5^-282
    (0xb9e08a83a5e34f07, 0xdaf5ccd93fb0cc53),  // 5^-281
    (0xe858ad248f5c22c9, 0xd1b3400f8f9cff68),  // 5^-280
    (0x91376c36d99995be, 0x23100809b9c21fa1),  // 5^-279
    (0xb58547448ffffb2d, 0xabd40a0c2832a78a),  // 5^-278
    (0xe2e69915b3fff9f9, 0x16c90c8f323f516c),  // 5^-277
    (0x8dd01fad907ffc3b, 0xae3da7d97f6792e3),  // 5^-276
    (0xb1442798f49ffb4a, 0x99cd11cfdf41779c),  // 5^-275
    (0xdd95317f31c7fa1d, 0x40405643d711d583),  // 5^-274
    (0x8a7d3eef7f1cfc52, 0x482835ea666b2572),  // 5^-273
    (0xad1c8eab5ee43b66, 0xda3243650005eecf),  // 5^-272
    (0xd863b256369d4a40, 0x90bed43e40076a82),  // 5^-271
    (0x873e4f75e2224e68, 0x5a7744a6e804a291),  // 5^-270
    (0xa90de3535aaae202, 0x711515d0a205cb36),  // 5^-269
    (0xd3515c2831559a83, 0x0d5a5b44ca873e03),  // 5^-268
    (0x8412d9991ed58091, 0xe858790afe9486c2),  // 5^-267
    (0xa5178fff668ae0b6, 0x626e974dbe39a872),  // 5^-266
    (0xce5d73ff402d98e3, 0xfb0a3d212dc8128f),  // 5^-265
    (0x80fa687f881c7f8e, 0x7ce66634bc9d0b99),  // 5^-264
    (0xa139029f6a239f72, 0x1c1fffc1ebc44e80),  // 5^-263
    (0xc987434744ac874e, 0xa327ffb266b56220),  // 5^-262
    (0xfbe9141915d7a922, 0x4bf1ff9f0062baa8),  // 5^-261
    (0x9d71ac8fada6c9b5, 0x6f773fc3603db4a9),  // 5^-260
    (0xc4ce17b399107c22, 0xcb550fb4384d21d3),  // 5^-259
    (0xf6019da07f549b2b, 0x7e2a53a146606a48),  // 5^-258
    (0x99c102844f94e0fb, 0x2eda7444cbfc426d),  // 5^-257
    (0xc0314325637a1939, 0xfa911155fefb5308),  // 5^-256
    (0xf03d93eebc589f88, 0x793555ab7eba27ca),  // 5^-255
    (0x96267c7535b763b5, 0x4bc1558b2f3458de),  // 5^-254
    (0xbbb01b9283253ca2, 0x9eb1aaedfb016f16),  // 5^-253
    (0xea9c227723ee8bcb, 0x465e15a979c1cadc),  // 5^-252
    (0x92a1958a7675175f, 0x0bfacd89ec191ec9),  // 5^-251
    (0xb749faed14125d36, 0xcef980ec671f667b),  // 5^-250
    (0xe51c79a85916f484, 0x82b7e12780e7401a),  // 5^-249
    (0x8f31cc0937ae58d2, 0xd1b2ecb8b0908810),  // 5^-248
    (0xb2fe3f0b8599ef07, 0x861fa7e6dcb4aa15),  // 5^-247
    (0xdfbdcece67006ac9, 0x67a791e093e1d49a),  // 5^-246
    (0x8bd6a141006042bd, 0xe0c8bb2c5c6d24e0),  // 5^-245
    (0xaecc49914078536d, 0x58fae9f773886e18),  // 5^-244
    (0xda7f5bf590966848, 0xaf39a475506a899e),  // 5^-243
    (0x888f99797a5e012d, 0x6d8406c952429603),  // 5^-242
    (0xaab37fd7d8f58178, 0xc8e5087ba6d33b83),  // 5^-241
    (0xd5605fcdcf32e1d6, 0xfb1e4a9a90880a64),  // 5^-240
    (0x855c3be0a17fcd26, 0x5cf2eea09a55067f),  // 5^-239
    (0xa6b34ad8c9dfc06f, 0xf42faa48c0ea481e),  // 5^-238
    (0xd0601d8efc57b08b, 0xf13b94daf124da26),  // 5^-237
    (0x823c12795db6ce57, 0x76c53d08d6b70858),  // 5^-236
    (0xa2cb1717b52481ed, 0x54768c4b0c64ca6e),  // 5^-235
    (0xcb7ddcdda26da268, 0xa9942f5dcf7dfd09),  // 5^-234
    (0xfe5d54150b090b02, 0xd3f93b35435d7c4c),  // 5^-233
    (0x9efa548d26e5a6e1, 0xc47bc5014a1a6daf),  // 5^-232
    (0xc6b8e9b0709f109a, 0x359ab6419ca1091b),  // 5^-231
    (0xf867241c8cc6d4c0, 0xc30163d203c94b62),  // 5^-230
    (0x9b407691d7fc44f8, 0x79e0de63425dcf1d),  // 5^-229
    (0xc21094364dfb5636, 0x985915fc12f542e4),  // 5^-228
    (0xf294b943e17a2bc4, 0x3e6f5b7b17b2939d),  // 5^-227
    (0x979cf3ca6cec5b5a, 0xa705992ceecf9c42),  // 5^-226
    (0xbd8430bd08277231, 0x50c6ff782a838353),  // 5^-225
    (0xece53cec4a314ebd, 0xa4f8bf5635246428),  // 5^-224
    (0x940f4613ae5ed136, 0x871b7795e136be99),  // 5^-223
    (0xb913179899f68584, 0x28e2557b59846e3f),  // 5^-222
    (0xe757dd7ec07426e5, 0x331aeada2fe589cf),  // 5^-221
    (0x9096ea6f3848984f, 0x3ff0d2c85def7621),  // 5^-220
    (0xb4bca50b065abe63, 0x0fed077a756b53a9),  // 5^-219
    (0xe1ebce4dc7f16dfb, 0xd3e8495912c62894),  // 5^-218
    (0x8d3360f09cf6e4bd, 0x64712dd7abbbd95c),  // 5^-217
    (0xb080392cc4349dec, 0xbd8d794d96aacfb3),  // 5^-216
    (0xdca04777f541c567, 0xecf0d7a0fc5583a0),  // 5^-215
    (0x89e42caaf9491b60, 0xf41686c49db57244),  // 5^-214
    (0xac5d37d5b79b6239, 0x311c2875c522ced5),  // 5^-213
    (0xd77485cb25823ac7, 0x7d633293366b828b),  // 5^-212
    (0x86a8d39ef77164bc, 0xae5dff9c02033197),  // 5^-211
    (0xa8530886b54dbdeb, 0xd9f57f830283fdfc),  // 5^-210
    (0xd267caa862a12d66, 0xd072df63c324fd7b),  // 5^-209
    (0x8380dea93da4bc60, 0x4247cb9e59f71e6d),  // 5^-208
    (0xa46116538d0deb78, 0x52d9be85f074e608),  // 5^-207
    (0xcd795be870516656, 0x67902e276c921f8b),  // 5^-206
    (0x806bd9714632dff6, 0x00ba1cd8a3db53b6),  // 5^-205
    (0xa086cfcd97bf97f3, 0x80e8a40eccd228a4),  // 5^-204
    (0xc8a883c0fdaf7df0, 0x6122cd128006b2cd),  // 5^-203
    (0xfad2a4b13d1b5d6c, 0x796b805720085f81),  // 5^-202
    (0x9cc3a6eec6311a63, 0xcbe3303674053bb0),  // 5^-201
    (0xc3f490aa77bd60fc, 0xbedbfc4411068a9c),  // 5^-200
    (0xf4f1b4d515acb93b, 0xee92fb5515482d44),  // 5^-199
    (0x991711052d8bf3c5, 0x751bdd152d4d1c4a),  // 5^-198
    (0xbf5cd54678eef0b6, 0xd262d45a78a0635d),  // 5^-197
    (0xef340a98172aace4, 0x86fb897116c87c34),  // 5^-196
    (0x9580869f0e7aac0e, 0xd45d35e6ae3d4da0),  // 5^-195
    (0xbae0a846d2195712, 0x8974836059cca109),  // 5^-194
    (0xe998d258869facd7, 0x2bd1a438703fc94b),  // 5^-193
    (0x91ff83775423cc06, 0x7b6306a34627ddcf),  // 5^-192
    (0xb67f6455292cbf08, 0x1a3bc84c17b1d542),  // 5^-191
    (0xe41f3d6a7377eeca, 0x20caba5f1d9e4a93),  // 5^-190
    (0x8e938662882af53e, 0x547eb47b7282ee9c),  // 5^-189
    (0xb23867fb2a35b28d, 0xe99e619a4f23aa43),  // 5^-188
    (0xdec681f9f4c31f31, 0x6405fa00e2ec94d4),  // 5^-187
    (0x8b3c113c38f9f37e, 0xde83bc408dd3dd04),  // 5^-186
    (0xae0b158b4738705e, 0x9624ab50b148d445),  // 5^-185
    (0xd98ddaee19068c76, 0x3badd624dd9b0957),  // 5^-184
    (0x87f8a8d4cfa417c9, 0xe54ca5d70a80e5d6),  // 5^-183
    (0xa9f6d30a038d1dbc, 0x5e9fcf4ccd211f4c),  // 5^-182
    (0xd47487cc8470652b, 0x7647c3200069671f),  // 5^-181
    (0x84c8d4dfd2c63f3b, 0x29ecd9f40041e073),  // 5^-180
    (0xa5fb0a17c777cf09, 0xf468107100525890),  // 5^-179
    (0xcf79cc9db955c2cc, 0x7182148d4066eeb4),  // 5^-178
    (0x81ac1fe293d599bf, 0xc6f14cd848405530),  // 5^-177
    (0xa21727db38cb002f, 0xb8ada00e5a506a7c),  // 5^-176
    (0xca9cf1d206fdc03b, 0xa6d90811f0e4851c),  // 5^-175
    (0xfd442e4688bd304a, 0x908f4a166d1da663),  // 5^-174
    (0x9e4a9cec15763e2e, 0x9a598e4e043287fe),  // 5^-173
    (0xc5dd44271ad3cdba, 0x40eff1e1853f29fd),  // 5^-172
    (0xf7549530e188c128, 0xd12bee59e68ef47c),  // 5^-171
    (0x9a94dd3e8cf578b9, 0x82bb74f8301958ce),  // 5^-170
    (0xc13a148e3032d6e7, 0xe36a52363c1faf01),  // 5^-169
    (0xf18899b1bc3f8ca1, 0xdc44e6c3cb279ac1),  // 5^-168
    (0x96f5600f15a7b7e5, 0x29ab103a5ef8c0b9),  // 5^-167
    (0xbcb2b812db11a5de, 0x7415d448f6b6f0e7),  // 5^-166
    (0xebdf661791d60f56, 0x111b495b3464ad21),  // 5^-165
    (0x936b9fcebb25c995, 0xcab10dd900beec34),  // 5^-164
    (0xb84687c269ef3bfb, 0x3d5d514f40eea742),  // 5^-163
    (0xe65829b3046b0afa, 0x0cb4a5a3112a5112),  // 5^-162
    (0x8ff71a0fe2c2e6dc, 0x47f0e785eaba72ab),  // 5^-161
    (0xb3f4e093db73a093, 0x59ed216765690f56),  // 5^-160
    (0xe0f218b8d25088b8, 0x306869c13ec3532c),  // 5^-159
    (0x8c974f7383725573, 0x1e414218c73a13fb),  // 5^-158
    (0xafbd2350644eeacf, 0xe5d1929ef90898fa),  // 5^-157
    (0xdbac6c247d62a583, 0xdf45f746b74abf39),  // 5^-156
    (0x894bc396ce5da772, 0x6b8bba8c328eb783),  // 5^-155
    (0xab9eb47c81f5114f, 0x066ea92f3f326564),  // 5^-154
    (0xd686619ba27255a2, 0xc80a537b0efefebd),  // 5^-153
    (0x8613fd0145877585, 0xbd06742ce95f5f36),  // 5^-152
    (0xa798fc4196e952e7, 0x2c48113823b73704),  // 5^-151
    (0xd17f3b51fca3a7a0, 0xf75a15862ca504c5),  // 5^-150
    (0x82ef85133de648c4, 0x9a984d73dbe722fb),  // 5^-149
    (0xa3ab66580d5fdaf5, 0xc13e60d0d2e0ebba),  // 5^-148
    (0xcc963fee10b7d1b3, 0x318df905079926a8),  // 5^-147
    (0xffbbcfe994e5c61f, 0xfdf17746497f7052),  // 5^-146
    (0x9fd561f1fd0f9bd3, 0xfeb6ea8bedefa633),  // 5^-145
    (0xc7caba6e7c5382c8, 0xfe64a52ee96b8fc0),  // 5^-144
    (0xf9bd690a1b68637b, 0x3dfdce7aa3c673b0),  // 5^-143
    (0x9c1661a651213e2d, 0x06bea10ca65c084e),  // 5^-142
    (0xc31bfa0fe5698db8, 0x486e494fcff30a62),  // 5^-141
    (0xf3e2f893dec3f126, 0x5a89dba3c3efccfa),  // 5^-140
    (0x986ddb5c6b3a76b7, 0xf89629465a75e01c),  // 5^-139
    (0xbe89523386091465, 0xf6bbb397f1135823),  // 5^-138
    (0xee2ba6c0678b597f, 0x746aa07ded582e2c),  // 5^-137
    (0x94db483840b717ef, 0xa8c2a44eb4571cdc),  // 5^-136
    (0xba121a4650e4ddeb, 0x92f34d62616ce413),  // 5^-135
    (0xe896a0d7e51e1566, 0x77b020baf9c81d17),  // 5^-134
    (0x915e2486ef32cd60, 0x0ace1474dc1d122e),  // 5^-133
    (0xb5b5ada8aaff80b8, 0x0d819992132456ba),  // 5^-132
    (0xe3231912d5bf60e6, 0x10e1fff697ed6c69),  // 5^-131
    (0x8df5efabc5979c8f, 0xca8d3ffa1ef463c1),  // 5^-130
    (0xb1736b96b6fd83b3, 0xbd308ff8a6b17cb2),  // 5^-129
    (0xddd0467c64bce4a0, 0xac7cb3f6d05ddbde),  // 5^-128
    (0x8aa22c0dbef60ee4, 0x6bcdf07a423aa96b),  // 5^-127
    (0xad4ab7112eb3929d, 0x86c16c98d2c953c6),  // 5^-126
    (0xd89d64d57a607744, 0xe871c7bf077ba8b7),  // 5^-125
    (0x87625f056c7c4a8b, 0x11471cd764ad4972),  // 5^-124
    (0xa93af6c6c79b5d2d, 0xd598e40d3dd89bcf),  // 5^-123
    (0xd389b47879823479, 0x4aff1d108d4ec2c3),  // 5^-122
    (0x843610cb4bf160cb, 0xcedf722a585139ba),  // 5^-121
    (0xa54394fe1eedb8fe, 0xc2974eb4ee658828),  // 5^-120
    (0xce947a3da6a9273e, 0x733d226229feea32),  // 5^-119
    (0x811ccc668829b887, 0x0806357d5a3f525f),  // 5^-118
    (0xa163ff802a3426a8, 0xca07c2dcb0cf26f7),  // 5^-117
    (0xc9bcff6034c13052, 0xfc89b393dd02f0b5),  // 5^-116
    (0xfc2c3f3841f17c67, 0xbbac2078d443ace2),  // 5^-115
    (0x9d9ba7832936edc0, 0xd54b944b84aa4c0d),  // 5^-114
    (0xc5029163f384a931, 0x0a9e795e65d4df11),  // 5^-113
    (0xf64335bcf065d37d, 0x4d4617b5ff4a16d5),  // 5^-112
    (0x99ea0196163fa42e, 0x504bced1bf8e4e45),  // 5^-111
    (0xc06481fb9bcf8d39, 0xe45ec2862f71e1d6),  // 5^-110
    (0xf07da27a82c37088, 0x5d767327bb4e5a4c),  // 5^-109
    (0x964e858c91ba2655, 0x3a6a07f8d510f86f),  // 5^-108
    (0xbbe226efb628afea, 0x890489f70a55368b),  // 5^-107
    (0xeadab0aba3b2dbe5, 0x2b45ac74ccea842e),  // 5^-106
    (0x92c8ae6b464fc96f, 0x3b0b8bc90012929d),  // 5^-105
    (0xb77ada0617e3bbcb, 0x09ce6ebb40173744),  // 5^-104
    (0xe55990879ddcaabd, 0xcc420a6a101d0515),  // 5^-103
    (0x8f57fa54c2a9eab6, 0x9fa946824a12232d),  // 5^-102
    (0xb32df8e9f3546564, 0x47939822dc96abf9),  // 5^-101
    (0xdff9772470297ebd, 0x59787e2b93bc56f7),  // 5^-100
    (0x8bfbea76c619ef36, 0x57eb4edb3c55b65a),  // 5^-99
    (0xaefae51477a06b03, 0xede622920b6b23f1),  // 5^-98
    (0xdab99e59958885c4, 0xe95fab368e45eced),  // 5^-97
    (0x88b402f7fd75539b, 0x11dbcb0218ebb414),  // 5^-96
    (0xaae103b5fcd2a881, 0xd652bdc29f26a119),  // 5^-95
    (0xd59944a37c0752a2, 0x4be76d3346f0495f),  // 5^-94
    (0x857fcae62d8493a5, 0x6f70a4400c562ddb),  // 5^-93
    (0xa6dfbd9fb8e5b88e, 0xcb4ccd500f6bb952),  // 5^-92
    (0xd097ad07a71f26b2, 0x7e2000a41346a7a7),  // 5^-91
    (0x825ecc24c873782f, 0x8ed400668c0c28c8),  // 5^-90
    (0xa2f67f2dfa90563b, 0x728900802f0f32fa),  // 5^-89
    (0xcbb41ef979346bca, 0x4f2b40a03ad2ffb9),  // 5^-88
    (0xfea126b7d78186bc, 0xe2f610c84987bfa8),  // 5^-87
    (0x9f24b832e6b0f436, 0x0dd9ca7d2df4d7c9),  // 5^-86
    (0xc6ede63fa05d3143, 0x91503d1c79720dbb),  // 5^-85
    (0xf8a95fcf88747d94, 0x75a44c6397ce912a),  // 5^-84
    (0x9b69dbe1b548ce7c, 0xc986afbe3ee11aba),  // 5^-83
    (0xc24452da229b021b, 0xfbe85badce996168),  // 5^-82
    (0xf2d56790ab41c2a2, 0xfae27299423fb9c3),  // 5^-81
    (0x97c560ba6b0919a5, 0xdccd879fc967d41a),  // 5^-80
    (0xbdb6b8e905cb600f, 0x5400e987bbc1c920),  // 5^-79
    (0xed246723473e3813, 0x290123e9aab23b68),  // 5^-78
    (0x9436c0760c86e30b, 0xf9a0b6720aaf6521),  // 5^-77
    (0xb94470938fa89bce, 0xf808e40e8d5b3e69),  // 5^-76
    (0xe7958cb87392c2c2, 0xb60b1d1230b20e04),  // 5^-75
    (0x90bd77f3483bb9b9, 0xb1c6f22b5e6f48c2),  // 5^-74
    (0xb4ecd5f01a4aa828, 0x1e38aeb6360b1af3),  // 5^-73
    (0xe2280b6c20dd5232, 0x25c6da63c38de1b0),  // 5^-72
    (0x8d590723948a535f, 0x579c487e5a38ad0e),  // 5^-71
    (0xb0af48ec79ace837, 0x2d835a9df0c6d851),  // 5^-70
    (0xdcdb1b2798182244, 0xf8e431456cf88e65),  // 5^-69
    (0x8a08f0f8bf0f156b, 0x1b8e9ecb641b58ff),  // 5^-68
    (0xac8b2d36eed2dac5, 0xe272467e3d222f3f),  // 5^-67
    (0xd7adf884aa879177, 0x5b0ed81dcc6abb0f),  // 5^-66
    (0x86ccbb52ea94baea, 0x98e947129fc2b4e9),  // 5^-65
    (0xa87fea27a539e9a5, 0x3f2398d747b36224),  // 5^-64
    (0xd29fe4b18e88640e, 0x8eec7f0d19a03aad),  // 5^-63
    (0x83a3eeeef9153e89, 0x1953cf68300424ac),  // 5^-62
    (0xa48ceaaab75a8e2b, 0x5fa8c3423c052dd7),  // 5^-61
    (0xcdb02555653131b6, 0x3792f412cb06794d),  // 5^-60
    (0x808e17555f3ebf11, 0xe2bbd88bbee40bd0),  // 5^-59
    (0xa0b19d2ab70e6ed6, 0x5b6aceaeae9d0ec4),  // 5^-58
    (0xc8de047564d20a8b, 0xf245825a5a445275),  // 5^-57
    (0xfb158592be068d2e, 0xeed6e2f0f0d56712),  // 5^-56
    (0x9ced737bb6c4183d, 0x55464dd69685606b),  // 5^-55
    (0xc428d05aa4751e4c, 0xaa97e14c3c26b886),  // 5^-54
    (0xf53304714d9265df, 0xd53dd99f4b3066a8),  // 5^-53
    (0x993fe2c6d07b7fab, 0xe546a8038efe4029),  // 5^-52
    (0xbf8fdb78849a5f96, 0xde98520472bdd033),  // 5^-51
    (0xef73d256a5c0f77c, 0x963e66858f6d4440),  // 5^-50
    (0x95a8637627989aad, 0xdde7001379a44aa8),  // 5^-49
    (0xbb127c53b17ec159, 0x5560c018580d5d52),  // 5^-48
    (0xe9d71b689dde71af, 0xaab8f01e6e10b4a6),  // 5^-47
    (0x9226712162ab070d, 0xcab3961304ca70e8),  // 5^-46
    (0xb6b00d69bb55c8d1, 0x3d607b97c5fd0d22),  // 5^-45
    (0xe45c10c42a2b3b05, 0x8cb89a7db77c506a),  // 5^-44
    (0x8eb98a7a9a5b04e3, 0x77f3608e92adb242),  // 5^-43
    (0xb267ed1940f1c61c, 0x55f038b237591ed3),  // 5^-42
    (0xdf01e85f912e37a3, 0x6b6c46dec52f6688),  // 5^-41
    (0x8b61313bbabce2c6, 0x2323ac4b3b3da015),  // 5^-40
    (0xae397d8aa96c1b77, 0xabec975e0a0d081a),  // 5^-39
    (0xd9c7dced53c72255, 0x96e7bd358c904a21),  // 5^-38
    (0x881cea14545c7575, 0x7e50d64177da2e54),  // 5^-37
    (0xaa242499697392d2, 0xdde50bd1d5d0b9e9),  // 5^-36
    (0xd4ad2dbfc3d07787, 0x955e4ec64b44e864),  // 5^-35
    (0x84ec3c97da624ab4, 0xbd5af13bef0b113e),  // 5^-34
    (0xa6274bbdd0fadd61, 0xecb1ad8aeacdd58e),  // 5^-33
    (0xcfb11ead453994ba, 0x67de18eda5814af2),  // 5^-32
    (0x81ceb32c4b43fcf4, 0x80eacf948770ced7),  // 5^-31
    (0xa2425ff75e14fc31, 0xa1258379a94d028d),  // 5^-30
    (0xcad2f7f5359a3b3e, 0x096ee45813a04330),  // 5^-29
    (0xfd87b5f28300ca0d, 0x8bca9d6e188853fc),  // 5^-28
    (0x9e74d1b791e07e48, 0x775ea264cf55347e),  // 5^-27
    (0xc612062576589dda, 0x95364afe032a819e),  // 5^-26
    (0xf79687aed3eec551, 0x3a83ddbd83f52205),  // 5^-25
    (0x9abe14cd44753b52, 0xc4926a9672793543),  // 5^-24
    (0xc16d9a0095928a27, 0x75b7053c0f178294),  // 5^-23
    (0xf1c90080baf72cb1, 0x5324c68b12dd6339),  // 5^-22
    (0x971da05074da7bee, 0xd3f6fc16ebca5e04),  // 5^-21
    (0xbce5086492111aea, 0x88f4bb1ca6bcf585),  // 5^-20
    (0xec1e4a7db69561a5, 0x2b31e9e3d06c32e6),  // 5^-19
    (0x9392ee8e921d5d07, 0x3aff322e62439fd0),  // 5^-18
    (0xb877aa3236a4b449, 0x09befeb9fad487c3),  // 5^-17
    (0xe69594bec44de15b, 0x4c2ebe687989a9b4),  // 5^-16
    (0x901d7cf73ab0acd9, 0x0f9d37014bf60a11),  // 5^-15
    (0xb424dc35095cd80f, 0x538484c19ef38c95),  // 5^-14
    (0xe12e13424bb40e13, 0x2865a5f206b06fba),  // 5^-13
    (0x8cbccc096f5088cb, 0xf93f87b7442e45d4),  // 5^-12
    (0xafebff0bcb24aafe, 0xf78f69a51539d749),  // 5^-11
    (0xdbe6fecebdedd5be, 0xb573440e5a884d1c),  // 5^-10
    (0x89705f4136b4a597, 0x31680a88f8953031),  // 5^-9
    (0xabcc77118461cefc, 0xfdc20d2b36ba7c3e),  // 5^-8
    (0xd6bf94d5e57a42bc, 0x3d32907604691b4d),  // 5^-7
    (0x8637bd05af6c69b5, 0xa63f9a49c2c1b110),  // 5^-6
    (0xa7c5ac471b478423, 0x0fcf80dc33721d54),  // 5^-5
    (0xd1b71758e219652b, 0xd3c36113404ea4a9),  // 5^-4
    (0x83126e978d4fdf3b, 0x645a1cac083126ea),  // 5^-3
    (0xa3d70a3d70a3d70a, 0x3d70a3d70a3d70a4),  // 5^-2
    (0xcccccccccccccccc, 0xcccccccccccccccd),  // 5^-1
    (0x8000000000000000, 0x0000000000000000),  // 5^0
    (0xa000000000000000, 0x0000000000000000),  // 5^1
    (0xc800000000000000, 0x0000000000000000),  // 5^2
    (0xfa00000000000000, 0x0000000000000000),  // 5^3
    (0x9c40000000000000, 0x0000000000000000),  // 5^4
    (0xc350000000000000, 0x0000000000000000),  // 5^5
    (0xf424000000000000, 0x0000000000000000),  // 5^6
    (0x9896800000000000, 0x0000000000000000),  // 5^7
    (0xbebc200000000000, 0x0000000000000000),  // 5^8
    (0xee6b280000000000, 0x0000000000000000),  // 5^9
    (0x9502f90000000000, 0x0000000000000000),  // 5^10
    (0xba43b74000000000, 0x0000000000000000),  // 5^11
    (0xe8d4a51000000000, 0x0000000000000000),  // 5^12
    (0x9184e72a00000000, 0x0000000000000000),  // 5^13
    (0xb5e620f480000000, 0x0000000000000000),  // 5^14
    (0xe35fa931a0000000, 0x0000000000000000),  // 5^15
    (0x8e1bc9bf04000000, 0x0000000000000000),  // 5^16
    (0xb1a2bc2ec5000000, 0x0000000000000000),  // 5^17
    (0xde0b6b3a76400000, 0x0000000000000000),  // 5^18
    (0x8ac7230489e80000, 0x0000000000000000),  // 5^19
    (0xad78ebc5ac620000, 0x0000000000000000),  // 5^20
    (0xd8d726b7177a8000, 0x0000000000000000),  // 5^21
    (0x878678326eac9000, 0x0000000000000000),  // 5^22
    (0xa968163f0a57b400, 0x0000000000000000),  // 5^23
    (0xd3c21bcecceda100, 0x0000000000000000),  // 5^24
    (0x84595161401484a0, 0x0000000000000000),  // 5^25
    (0xa56fa5b99019a5c8, 0x0000000000000000),  // 5^26
    (0xcecb8f27f4200f3a, 0x0000000000000000),  // 5^27
    (0x813f3978f8940984, 0x4000000000000000),  // 5^28
    (0xa18f07d736b90be5, 0x5000000000000000),  // 5^29
    (0xc9f2c9cd04674ede, 0xa400000000000000),  // 5^30
    (0xfc6f7c4045812296, 0x4d00000000000000),  // 5^31
    (0x9dc5ada82b70b59d, 0xf020000000000000),  // 5^32
    (0xc5371912364ce305, 0x6c28000000000000),  // 5^33
    (0xf684df56c3e01bc6, 0xc732000000000000),  // 5^34
    (0x9a130b963a6c115c, 0x3c7f400000000000),  // 5^35
    (0xc097ce7bc90715b3, 0x4b9f100000000000),  // 5^36
    (0xf0bdc21abb48db20, 0x1e86d40000000000),  // 5^37
    (0x96769950b50d88f4, 0x1314448000000000),  // 5^38
    (0xbc143fa4e250eb31, 0x17d955a000000000),  // 5^39
    (0xeb194f8e1ae525fd, 0x5dcfab0800000000),  // 5^40
    (0x92efd1b8d0cf37be, 0x5aa1cae500000000),  // 5^41
    (0xb7abc627050305ad, 0xf14a3d9e40000000),  // 5^42
    (0xe596b7b0c643c719, 0x6d9ccd05d0000000),  // 5^43
    (0x8f7e32ce7bea5c6f, 0xe4820023a2000000),  // 5^44
    (0xb35dbf821ae4f38b, 0xdda2802c8a800000),  // 5^45
    (0xe0352f62a19e306e, 0xd50b2037ad200000),  // 5^46
    (0x8c213d9da502de45, 0x4526f422cc340000),  // 5^47
    (0xaf298d050e4395d6, 0x9670b12b7f410000),  // 5^48
    (0xdaf3f04651d47b4c, 0x3c0cdd765f114000),  // 5^49
    (0x88d8762bf324cd0f, 0xa5880a69fb6ac800),  // 5^50
    (0xab0e93b6efee0053, 0x8eea0d047a457a00),  // 5^51
    (0xd5d238a4abe98068, 0x72a4904598d6d880),  // 5^52
    (0x85a36366eb71f041, 0x47a6da2b7f864750),  // 5^53
    (0xa70c3c40a64e6c51, 0x999090b65f67d924),  // 5^54
    (0xd0cf4b50cfe20765, 0xfff4b4e3f741cf6d),  // 5^55
    (0x82818f1281ed449f, 0xbff8f10e7a8921a4),  // 5^56
    (0xa321f2d7226895c7, 0xaff72d52192b6a0d),  // 5^57
    (0xcbea6f8ceb02bb39, 0x9bf4f8a69f764490),  // 5^58
    (0xfee50b7025c36a08, 0x02f236d04753d5b4),  // 5^59
    (0x9f4f2726179a2245, 0x01d762422c946590),  // 5^60
    (0xc722f0ef9d80aad6, 0x424d3ad2b7b97ef5),  // 5^61
    (0xf8ebad2b84e0d58b, 0xd2e0898765a7deb2),  // 5^62
    (0x9b934c3b330c8577, 0x63cc55f49f88eb2f),  // 5^63
    (0xc2781f49ffcfa6d5, 0x3cbf6b71c76b25fb),  // 5^64
    (0xf316271c7fc3908a, 0x8bef464e3945ef7a),  // 5^65
    (0x97edd871cfda3a56, 0x97758bf0e3cbb5ac),  // 5^66
    (0xbde94e8e43d0c8ec, 0x3d52eeed1cbea317),  // 5^67
    (0xed63a231d4c4fb27, 0x4ca7aaa863ee4bdd),  // 5^68
    (0x945e455f24fb1cf8, 0x8fe8caa93e74ef6a),  // 5^69
    (0xb975d6b6ee39e436, 0xb3e2fd538e122b44),  // 5^70
    (0xe7d34c64a9c85d44, 0x60dbbca87196b616),  // 5^71
    (0x90e40fbeea1d3a4a, 0xbc8955e946fe31cd),  // 5^72
    (0xb51d13aea4a488dd, 0x6babab6398bdbe41),  // 5^73
    (0xe264589a4dcdab14, 0xc696963c7eed2dd1),  // 5^74
    (0x8d7eb76070a08aec, 0xfc1e1de5cf543ca2),  // 5^75
    (0xb0de65388cc8ada8, 0x3b25a55f43294bcb),  // 5^76
    (0xdd15fe86affad912, 0x49ef0eb713f39ebe),  // 5^77
    (0x8a2dbf142dfcc7ab, 0x6e3569326c784337),  // 5^78
    (0xacb92ed9397bf996, 0x49c2c37f07965404),  // 5^79
    (0xd7e77a8f87daf7fb, 0xdc33745ec97be906),  // 5^80
    (0x86f0ac99b4e8dafd, 0x69a028bb3ded71a3),  // 5^81
    (0xa8acd7c0222311bc, 0xc40832ea0d68ce0c),  // 5^82
    (0xd2d80db02aabd62b, 0xf50a3fa490c30190),  // 5^83
    (0x83c7088e1aab65db, 0x792667c6da79e0fa),  // 5^84
    (0xa4b8cab1a1563f52, 0x577001b891185938),  // 5^85
    (0xcde6fd5e09abcf26, 0xed4c0226b55e6f86),  // 5^86
    (0x80b05e5ac60b6178, 0x544f8158315b05b4),  // 5^87
    (0xa0dc75f1778e39d6, 0x696361ae3db1c721),  // 5^88
    (0xc913936dd571c84c, 0x03bc3a19cd1e38e9),  // 5^89
    (0xfb5878494ace3a5f, 0x04ab48a04065c723),  // 5^90
    (0x9d174b2dcec0e47b, 0x62eb0d64283f9c76),  // 5^91
    (0xc45d1df942711d9a, 0x3ba5d0bd324f8394),  // 5^92
    (0xf5746577930d6500, 0xca8f44ec7ee36479),  // 5^93
    (0x9968bf6abbe85f20, 0x7e998b13cf4e1ecb),  // 5^94
    (0xbfc2ef456ae276e8, 0x9e3fedd8c321a67e),  // 5^95
    (0xefb3ab16c59b14a2, 0xc5cfe94ef3ea101e),  // 5^96
    (0x95d04aee3b80ece5, 0xbba1f1d158724a12),  // 5^97
    (0xbb445da9ca61281f, 0x2a8a6e45ae8edc97),  // 5^98
    (0xea1575143cf97226, 0xf52d09d71a3293bd),  // 5^99
    (0x924d692ca61be758, 0x593c2626705f9c56),  // 5^100
    (0xb6e0c377cfa2e12e, 0x6f8b2fb00c77836c),  // 5^101
    (0xe498f455c38b997a, 0x0b6dfb9c0f956447),  // 5^102
    (0x8edf98b59a373fec, 0x4724bd4189bd5eac),  // 5^103
    (0xb2977ee300c50fe7, 0x58edec91ec2cb657),  // 5^104
    (0xdf3d5e9bc0f653e1, 0x2f2967b66737e3ed),  // 5^105
    (0x8b865b215899f46c, 0xbd79e0d20082ee74),  // 5^106
    (0xae67f1e9aec07187, 0xecd8590680a3aa11),  // 5^107
    (0xda01ee641a708de9, 0xe80e6f4820cc9495),  // 5^108
    (0x884134fe908658b2, 0x3109058d147fdcdd),  // 5^109
    (0xaa51823e34a7eede, 0xbd4b46f0599fd415),  // 5^110
    (0xd4e5e2cdc1d1ea96, 0x6c9e18ac7007c91a),  // 5^111
    (0x850fadc09923329e, 0x03e2cf6bc604ddb0),  // 5^112
    (0xa6539930bf6bff45, 0x84db8346b786151c),  // 5^113
    (0xcfe87f7cef46ff16, 0xe612641865679a63),  // 5^114
    (0x81f14fae158c5f6e, 0x4fcb7e8f3f60c07e),  // 5^115
    (0xa26da3999aef7749, 0xe3be5e330f38f09d),  // 5^116
    (0xcb090c8001ab551c, 0x5cadf5bfd3072cc5),  // 5^117
    (0xfdcb4fa002162a63, 0x73d9732fc7c8f7f6),  // 5^118
    (0x9e9f11c4014dda7e, 0x2867e7fddcdd9afa),  // 5^119
    (0xc646d63501a1511d, 0xb281e1fd541501b8),  // 5^120
    (0xf7d88bc24209a565, 0x1f225a7ca91a4226),  // 5^121
    (0x9ae757596946075f, 0x3375788de9b06958),  // 5^122
    (0xc1a12d2fc3978937, 0x0052d6b1641c83ae),  // 5^123
    (0xf209787bb47d6b84, 0xc0678c5dbd23a49a),  // 5^124
    (0x9745eb4d50ce6332, 0xf840b7ba963646e0),  // 5^125
    (0xbd176620a501fbff, 0xb650e5a93bc3d898),  // 5^126
    (0xec5d3fa8ce427aff, 0xa3e51f138ab4cebe),  // 5^127
    (0x93ba47c980e98cdf, 0xc66f336c36b10137),  // 5^128
    (0xb8a8d9bbe123f017, 0xb80b0047445d4184),  // 5^129
    (0xe6d3102ad96cec1d, 0xa60dc059157491e5),  // 5^130
    (0x9043ea1ac7e41392, 0x87c89837ad68db2f),  // 5^131
    (0xb454e4a179dd1877, 0x29babe4598c311fb),  // 5^132
    (0xe16a1dc9d8545e94, 0xf4296dd6fef3d67a),  // 5^133
    (0x8ce2529e2734bb1d, 0x1899e4a65f58660c),  // 5^134
    (0xb01ae745b101e9e4, 0x5ec05dcff72e7f8f),  // 5^135
    (0xdc21a1171d42645d, 0x76707543f4fa1f73),  // 5^136
    (0x899504ae72497eba, 0x6a06494a791c53a8),  // 5^137
    (0xabfa45da0edbde69, 0x0487db9d17636892),  // 5^138
    (0xd6f8d7509292d603, 0x45a9d2845d3c42b6),  // 5^139
    (0x865b86925b9bc5c2, 0x0b8a2392ba45a9b2),  // 5^140
    (0xa7f26836f282b732, 0x8e6cac7768d7141e),  // 5^141
    (0xd1ef0244af2364ff, 0x3207d795430cd926),  // 5^142
    (0x8335616aed761f1f, 0x7f44e6bd49e807b8),  // 5^143
    (0xa402b9c5a8d3a6e7, 0x5f16206c9c6209a6),  // 5^144
    (0xcd036837130890a1, 0x36dba887c37a8c0f),  // 5^145
    (0x802221226be55a64, 0xc2494954da2c9789),  // 5^146
    (0xa02aa96b06deb0fd, 0xf2db9baa10b7bd6c),  // 5^147
    (0xc83553c5c8965d3d, 0x6f92829494e5acc7),  // 5^148
    (0xfa42a8b73abbf48c, 0xcb772339ba1f17f9),  // 5^149
    (0x9c69a97284b578d7, 0xff2a760414536efb),  // 5^150
    (0xc38413cf25e2d70d, 0xfef5138519684aba),  // 5^151
    (0xf46518c2ef5b8cd1, 0x7eb258665fc25d69),  // 5^152
    (0x98bf2f79d5993802, 0xef2f773ffbd97a61),  // 5^153
    (0xbeeefb584aff8603, 0xaafb550ffacfd8fa),  // 5^154
    (0xeeaaba2e5dbf6784, 0x95ba2a53f983cf38),  // 5^155
    (0x952ab45cfa97a0b2, 0xdd945a747bf26183),  // 5^156
    (0xba756174393d88df, 0x94f971119aeef9e4),  // 5^157
    (0xe912b9d1478ceb17, 0x7a37cd5601aab85d),  // 5^158
    (0x91abb422ccb812ee, 0xac62e055c10ab33a),  // 5^159
    (0xb616a12b7fe617aa, 0x577b986b314d6009),  // 5^160
    (0xe39c49765fdf9d94, 0xed5a7e85fda0b80b),  // 5^161
    (0x8e41ade9fbebc27d, 0x14588f13be847307),  // 5^162
    (0xb1d219647ae6b31c, 0x596eb2d8ae258fc8),  // 5^163
    (0xde469fbd99a05fe3, 0x6fca5f8ed9aef3bb),  // 5^164
    (0x8aec23d680043bee, 0x25de7bb9480d5854),  // 5^165
    (0xada72ccc20054ae9, 0xaf561aa79a10ae6a),  // 5^166
    (0xd910f7ff28069da4, 0x1b2ba1518094da04),  // 5^167
    (0x87aa9aff79042286, 0x90fb44d2f05d0842),  // 5^168
    (0xa99541bf57452b28, 0x353a1607ac744a53),  // 5^169
    (0xd3fa922f2d1675f2, 0x42889b8997915ce8),  // 5^170
    (0x847c9b5d7c2e09b7, 0x69956135febada11),  // 5^171
    (0xa59bc234db398c25, 0x43fab9837e699095),  // 5^172
    (0xcf02b2c21207ef2e, 0x94f967e45e03f4bb),  // 5^173
    (0x8161afb94b44f57d, 0x1d1be0eebac278f5),  // 5^174
    (0xa1ba1ba79e1632dc, 0x6462d92a69731732),  // 5^175
    (0xca28a291859bbf93, 0x7d7b8f7503cfdcfe),  // 5^176
    (0xfcb2cb35e702af78, 0x5cda735244c3d43e),  // 5^177
    (0x9defbf01b061adab, 0x3a0888136afa64a7),  // 5^178
    (0xc56baec21c7a1916, 0x088aaa1845b8fdd0),  // 5^179
    (0xf6c69a72a3989f5b, 0x8aad549e57273d45),  // 5^180
    (0x9a3c2087a63f6399, 0x36ac54e2f678864b),  // 5^181
    (0xc0cb28a98fcf3c7f, 0x84576a1bb416a7dd),  // 5^182
    (0xf0fdf2d3f3c30b9f, 0x656d44a2a11c51d5),  // 5^183
    (0x969eb7c47859e743, 0x9f644ae5a4b1b325),  // 5^184
    (0xbc4665b596706114, 0x873d5d9f0dde1fee),  // 5^185
    (0xeb57ff22fc0c7959, 0xa90cb506d155a7ea),  // 5^186
    (0x9316ff75dd87cbd8, 0x09a7f12442d588f2),  // 5^187
    (0xb7dcbf5354e9bece, 0x0c11ed6d538aeb2f),  // 5^188
    (0xe5d3ef282a242e81, 0x8f1668c8a86da5fa),  // 5^189
    (0x8fa475791a569d10, 0xf96e017d694487bc),  // 5^190
    (0xb38d92d760ec4455, 0x37c981dcc395a9ac),  // 5^191
    (0xe070f78d3927556a, 0x85bbe253f47b1417),  // 5^192
    (0x8c469ab843b89562, 0x93956d7478ccec8e),  // 5^193
    (0xaf58416654a6babb, 0x387ac8d1970027b2),  // 5^194
    (0xdb2e51bfe9d0696a, 0x06997b05fcc0319e),  // 5^195
    (0x88fcf317f22241e2, 0x441fece3bdf81f03),  // 5^196
    (0xab3c2fddeeaad25a, 0xd527e81cad7626c3),  // 5^197
    (0xd60b3bd56a5586f1, 0x8a71e223d8d3b074),  // 5^198
    (0x85c7056562757456, 0xf6872d5667844e49),  // 5^199
    (0xa738c6bebb12d16c, 0xb428f8ac016561db),  // 5^200
    (0xd106f86e69d785c7, 0xe13336d701beba52),  // 5^201
    (0x82a45b450226b39c, 0xecc0024661173473),  // 5^202
    (0xa34d721642b06084, 0x27f002d7f95d0190),  // 5^203
    (0xcc20ce9bd35c78a5, 0x31ec038df7b441f4),  // 5^204
    (0xff290242c83396ce, 0x7e67047175a15271),  // 5^205
    (0x9f79a169bd203e41, 0x0f0062c6e984d386),  // 5^206
    (0xc75809c42c684dd1, 0x52c07b78a3e60868),  // 5^207
    (0xf92e0c3537826145, 0xa7709a56ccdf8a82),  // 5^208
    (0x9bbcc7a142b17ccb, 0x88a66076400bb691),  // 5^209
    (0xc2abf989935ddbfe, 0x6acff893d00ea435),  // 5^210
    (0xf356f7ebf83552fe, 0x0583f6b8c4124d43),  // 5^211
    (0x98165af37b2153de, 0xc3727a337a8b704a),  // 5^212
    (0xbe1bf1b059e9a8d6, 0x744f18c0592e4c5c),  // 5^213
    (0xeda2ee1c7064130c, 0x1162def06f79df73),  // 5^214
    (0x9485d4d1c63e8be7, 0x8addcb5645ac2ba8),  // 5^215
    (0xb9a74a0637ce2ee1, 0x6d953e2bd7173692),  // 5^216
    (0xe8111c87c5c1ba99, 0xc8fa8db6ccdd0437),  // 5^217
    (0x910ab1d4db9914a0, 0x1d9c9892400a22a2),  // 5^218
    (0xb54d5e4a127f59c8, 0x2503beb6d00cab4b),  // 5^219
    (0xe2a0b5dc971f303a, 0x2e44ae64840fd61d),  // 5^220
    (0x8da471a9de737e24, 0x5ceaecfed289e5d2),  // 5^221
    (0xb10d8e1456105dad, 0x7425a83e872c5f47),  // 5^222
    (0xdd50f1996b947518, 0xd12f124e28f77719),  // 5^223
    (0x8a5296ffe33cc92f, 0x82bd6b70d99aaa6f),  // 5^224
    (0xace73cbfdc0bfb7b, 0x636cc64d1001550b),  // 5^225
    (0xd8210befd30efa5a, 0x3c47f7e05401aa4e),  // 5^226
    (0x8714a775e3e95c78, 0x65acfaec34810a71),  // 5^227
    (0xa8d9d1535ce3b396, 0x7f1839a741a14d0d),  // 5^228
    (0xd31045a8341ca07c, 0x1ede48111209a050),  // 5^229
    (0x83ea2b892091e44d, 0x934aed0aab460432),  // 5^230
    (0xa4e4b66b68b65d60, 0xf81da84d5617853f),  // 5^231
    (0xce1de40642e3f4b9, 0x36251260ab9d668e),  // 5^232
    (0x80d2ae83e9ce78f3, 0xc1d72b7c6b426019),  // 5^233
    (0xa1075a24e4421730, 0xb24cf65b8612f81f),  // 5^234
    (0xc94930ae1d529cfc, 0xdee033f26797b627),  // 5^235
    (0xfb9b7cd9a4a7443c, 0x169840ef017da3b1),  // 5^236
    (0x9d412e0806e88aa5, 0x8e1f289560ee864e),  // 5^237
    (0xc491798a08a2ad4e, 0xf1a6f2bab92a27e2),  // 5^238
    (0xf5b5d7ec8acb58a2, 0xae10af696774b1db),  // 5^239
    (0x9991a6f3d6bf1765, 0xacca6da1e0a8ef29),  // 5^240
    (0xbff610b0cc6edd3f, 0x17fd090a58d32af3),  // 5^241
    (0xeff394dcff8a948e, 0xddfc4b4cef07f5b0),  // 5^242
    (0x95f83d0a1fb69cd9, 0x4abdaf101564f98e),  // 5^243
    (0xbb764c4ca7a4440f, 0x9d6d1ad41abe37f1),  // 5^244
    (0xea53df5fd18d5513, 0x84c86189216dc5ed),  // 5^245
    (0x92746b9be2f8552c, 0x32fd3cf5b4e49bb4),  // 5^246
    (0xb7118682dbb66a77, 0x3fbc8c33221dc2a1),  // 5^247
    (0xe4d5e82392a40515, 0x0fabaf3feaa5334a),  // 5^248
    (0x8f05b1163ba6832d, 0x29cb4d87f2a7400e),  // 5^249
    (0xb2c71d5bca9023f8, 0x743e20e9ef511012),  // 5^250
    (0xdf78e4b2bd342cf6, 0x914da9246b255416),  // 5^251
    (0x8bab8eefb6409c1a, 0x1ad089b6c2f7548e),  // 5^252
    (0xae9672aba3d0c320, 0xa184ac2473b529b1),  // 5^253
    (0xda3c0f568cc4f3e8, 0xc9e5d72d90a2741e),  // 5^254
    (0x8865899617fb1871, 0x7e2fa67c7a658892),  // 5^255
    (0xaa7eebfb9df9de8d, 0xddbb901b98feeab7),  // 5^256
    (0xd51ea6fa85785631, 0x552a74227f3ea565),  // 5^257
    (0x8533285c936b35de, 0xd53a88958f87275f),  // 5^258
    (0xa67ff273b8460356, 0x8a892abaf368f137),  // 5^259
    (0xd01fef10a657842c, 0x2d2b7569b0432d85),  // 5^260
    (0x8213f56a67f6b29b, 0x9c3b29620e29fc73),  // 5^261
    (0xa298f2c501f45f42, 0x8349f3ba91b47b8f),  // 5^262
    (0xcb3f2f7642717713, 0x241c70a936219a73),  // 5^263
    (0xfe0efb53d30dd4d7, 0xed238cd383aa0110),  // 5^264
    (0x9ec95d1463e8a506, 0xf4363804324a40aa),  // 5^265
    (0xc67bb4597ce2ce48, 0xb143c6053edcd0d5),  // 5^266
    (0xf81aa16fdc1b81da, 0xdd94b7868e94050a),  // 5^267
    (0x9b10a4e5e9913128, 0xca7cf2b4191c8326),  // 5^268
    (0xc1d4ce1f63f57d72, 0xfd1c2f611f63a3f0),  // 5^269
    (0xf24a01a73cf2dccf, 0xbc633b39673c8cec),  // 5^270
    (0x976e41088617ca01, 0xd5be0503e085d813),  // 5^271
    (0xbd49d14aa79dbc82, 0x4b2d8644d8a74e18),  // 5^272
    (0xec9c459d51852ba2, 0xddf8e7d60ed1219e),  // 5^273
    (0x93e1ab8252f33b45, 0xcabb90e5c942b503),  // 5^274
    (0xb8da1662e7b00a17, 0x3d6a751f3b936243),  // 5^275
    (0xe7109bfba19c0c9d, 0x0cc512670a783ad4),  // 5^276
    (0x906a617d450187e2, 0x27fb2b80668b24c5),  // 5^277
    (0xb484f9dc9641e9da, 0xb1f9f660802dedf6),  // 5^278
    (0xe1a63853bbd26451, 0x5e7873f8a0396973),  // 5^279
    (0x8d07e33455637eb2, 0xdb0b487b6423e1e8),  // 5^280
    (0xb049dc016abc5e5f, 0x91ce1a9a3d2cda62),  // 5^281
    (0xdc5c5301c56b75f7, 0x7641a140cc7810fb),  // 5^282
    (0x89b9b3e11b6329ba, 0xa9e904c87fcb0a9d),  // 5^283
    (0xac2820d9623bf429, 0x546345fa9fbdcd44),  // 5^284
    (0xd732290fbacaf133, 0xa97c177947ad4095),  // 5^285
    (0x867f59a9d4bed6c0, 0x49ed8eabcccc485d),  // 5^286
    (0xa81f301449ee8c70, 0x5c68f256bfff5a74),  // 5^287
    (0xd226fc195c6a2f8c, 0x73832eec6fff3111),  // 5^288
    (0x83585d8fd9c25db7, 0xc831fd53c5ff7eab),  // 5^289
    (0xa42e74f3d032f525, 0xba3e7ca8b77f5e55),  // 5^290
    (0xcd3a1230c43fb26f, 0x28ce1bd2e55f35eb),  // 5^291
    (0x80444b5e7aa7cf85, 0x7980d163cf5b81b3),  // 5^292
    (0xa0555e361951c366, 0xd7e105bcc332621f),  // 5^293
    (0xc86ab5c39fa63440, 0x8dd9472bf3fefaa7),  // 5^294
    (0xfa856334878fc150, 0xb14f98f6f0feb951),  // 5^295
    (0x9c935e00d4b9d8d2, 0x6ed1bf9a569f33d3),  // 5^296
    (0xc3b8358109e84f07, 0x0a862f80ec4700c8),  // 5^297
    (0xf4a642e14c6262c8, 0xcd27bb612758c0fa),  // 5^298
    (0x98e7e9cccfbd7dbd, 0x8038d51cb897789c),  // 5^299
    (0xbf21e44003acdd2c, 0xe0470a63e6bd56c3),  // 5^300
    (0xeeea5d5004981478, 0x1858ccfce06cac74),  // 5^301
    (0x95527a5202df0ccb, 0x0f37801e0c43ebc8),  // 5^302
    (0xbaa718e68396cffd, 0xd30560258f54e6ba),  // 5^303
    (0xe950df20247c83fd, 0x47c6b82ef32a2069),  // 5^304
    (0x91d28b7416cdd27e, 0x4cdc331d57fa5441),  // 5^305
    (0xb6472e511c81471d, 0xe0133fe4adf8e952),  // 5^306
    (0xe3d8f9e563a198e5, 0x58180fddd97723a6),  // 5^307
    (0x8e679c2f5e44ff8f, 0x570f09eaa7ea7648),  // 5^308
];

/// The entry of [`POWER_OF_FIVE_128`] for `5^q`.
pub closed spec fn power_of_five_128(q: int) -> (u64, u64) {
    POWER_OF_FIVE_128[q - SMALLEST_POWER_OF_FIVE]
}

/// The entry of [`POWER_OF_FIVE_128`] for `5^q`: the upper and the lower
/// 64 bits of the approximation.
pub fn power_of_five(q: i64) -> (r: (u64, u64))
    requires
        SMALLEST_POWER_OF_FIVE <= q <= LARGEST_POWER_OF_FIVE,
    ensures
        r == power_of_five_128(q as int),
{
    let index = (q - SMALLEST_POWER_OF_FIVE as i64) as usize;
    POWER_OF_FIVE_128[index]
}

/// The entry for `5^q` as one number of 128 bits.
pub open spec fn entry_value(q: int) -> nat {
    power_of_five_128(q).0 as nat * 0x1_0000_0000_0000_0000 + power_of_five_128(q).1 as nat
}

/// The power of two by which the entry for `5^q` is scaled: the entry
/// approximates `5^q * 2^table_exponent(q)`. It is the exponent that puts the
/// top bit of the entry at the place 127, as read off the estimate
/// `floor(q * 217706 / 2^16)` of the binary exponent of `10^q`.
pub open spec fn table_exponent(q: int) -> int {
    127 + q - (q * 217706) / 65536
}

/// What the entry for `5^q` is.
///
/// It has its top bit set. For `q` from 0 to 55 it is `5^q`, scaled by a
/// power of two. For larger `q` it is `5^q`, scaled down by a power of two
/// and cut off. For negative `q` it approximates a power of two divided by
/// `5^-q`: from above down to `q == -27`, and from below for smaller `q`.
pub open spec fn approximates(q: int) -> bool {
    let t = entry_value(q);
    let s = table_exponent(q);
    &&& pow2(127) <= t < pow2(128)
    &&& 0 <= q <= 55 ==> s >= 0 && t == pow5(q as nat) * pow2(s as nat)
    &&& 56 <= q ==> s < 0 && t * pow2((-s) as nat) <= pow5(q as nat) < (t + 1) * pow2(
        (-s) as nat,
    )
    &&& -27 <= q < 0 ==> s >= 0 && (t - 1) * pow5((-q) as nat) < pow2(s as nat) < t * pow5(
        (-q) as nat,
    )
    &&& q < -27 ==> s >= 0 && t * pow5((-q) as nat) < pow2(s as nat) < (t + 1) * pow5(
        (-q) as nat,
    )
}

/// A part of the powers of five, written out.
proof fn lemma_pow5_values_0()
    ensures
        pow5(0) == 1int,
        pow5(1) == 5int,
        pow5(2) == 25int,
        pow5(3) == 125int,
        pow5(4) == 625int,
        pow5(5) == 3125int,
        pow5(6) == 15625int,
        pow5(7) == 78125int,
        pow5(8) == 390625int,
        pow5(9) == 1953125int,
        pow5(10) == 9765625int,
        pow5(11) == 48828125int,
        pow5(12) == 244140625int,
        pow5(13) == 1220703125int,
        pow5(14) == 6103515625int,
        pow5(15) == 30517578125int,
        pow5(16) == 152587890625int,
        pow5(17) == 762939453125int,
        pow5(18) == 3814697265625int,
        pow5(19) == 19073486328125int,
        pow5(20) == 95367431640625int,
        pow5(21) == 476837158203125int,
        pow5(22) == 2384185791015625int,
        pow5(23) == 11920928955078125int,
        pow5(24) == 59604644775390625int,
        pow5(25) == 298023223876953125int,
        pow5(26) == 1490116119384765625int,
        pow5(27) == 7450580596923828125int,
        pow5(28) == 37252902984619140625int,
        pow5(29) == 186264514923095703125int,
        pow5(30) == 931322574615478515625int,
        pow5(31) == 4656612873077392578125int,
        pow5(32) == 23283064365386962890625int,
        pow5(33) == 116415321826934814453125int,
        pow5(34) == 582076609134674072265625int,
        pow5(35) == 2910383045673370361328125int,
        pow5(36) == 14551915228366851806640625int,
        pow5(37) == 72759576141834259033203125int,
        pow5(38) == 363797880709171295166015625int,
        pow5(39) == 1818989403545856475830078125int,
{
    lemma_pow5(0);
    lemma_pow5(1);
    lemma_pow5(2);
    lemma_pow5(3);
    lemma_pow5(4);
    lemma_pow5(5);
    lemma_pow5(6);
    lemma_pow5(7);
    lemma_pow5(8);
    lemma_pow5(9);
    lemma_pow5(10);
    lemma_pow5(11);
    lemma_pow5(12);
    lemma_pow5(13);
    lemma_pow5(14);
    lemma_pow5(15);
    lemma_pow5(16);
    lemma_pow5(17);
    lemma_pow5(18);
    lemma_pow5(19);
    lemma_pow5(20);
    lemma_pow5(21);
    lemma_pow5(22);
    lemma_pow5(23);
    lemma_pow5(24);
    lemma_pow5(25);
    lemma_pow5(26);
    lemma_pow5(27);
    lemma_pow5(28);
    lemma_pow5(29);
    lemma_pow5(30);
    lemma_pow5(31);
    lemma_pow5(32);
    lemma_pow5(33);
    lemma_pow5(34);
    lemma_pow5(35);
    lemma_pow5(36);
    lemma_pow5(37);
    lemma_pow5(38);
}

/// A part of the powers of five, written out.
proof fn lemma_pow5_values_1()
    ensures
        pow5(40) == 9094947017729282379150390625int,
        pow5(41) == 45474735088646411895751953125int,
        pow5(42) == 227373675443232059478759765625int,
        pow5(43) == 1136868377216160297393798828125int,
        pow5(44) == 5684341886080801486968994140625int,
        pow5(45) == 28421709430404007434844970703125int,
        pow5(46) == 142108547152020037174224853515625int,
        pow5(47) == 710542735760100185871124267578125int,
        pow5(48) == 3552713678800500929355621337890625int,
        pow5(49) == 17763568394002504646778106689453125int,
        pow5(50) == 88817841970012523233890533447265625int,
        pow5(51) == 444089209850062616169452667236328125int,
        pow5(52) == 2220446049250313080847263336181640625int,
        pow5(53) == 11102230246251565404236316680908203125int,
        pow5(54) == 55511151231257827021181583404541015625int,
        pow5(55) == 277555756156289135105907917022705078125int,
        pow5(56) == 1387778780781445675529539585113525390625int,
        pow5(57) == 6938893903907228377647697925567626953125int,
        pow5(58) == 34694469519536141888238489627838134765625int,
        pow5(59) == 173472347597680709441192448139190673828125int,
        pow5(60) == 867361737988403547205962240695953369140625int,
        pow5(61) == 4336808689942017736029811203479766845703125int,
        pow5(62) == 21684043449710088680149056017398834228515625int,
        pow5(63) == 108420217248550443400745280086994171142578125int,
        pow5(64) == 542101086242752217003726400434970855712890625int,
        pow5(65) == 2710505431213761085018632002174854278564453125int,
        pow5(66) == 13552527156068805425093160010874271392822265625int,
        pow5(67) == 67762635780344027125465800054371356964111328125int,
        pow5(68) == 338813178901720135627329000271856784820556640625int,
        pow5(69) == 1694065894508600678136645001359283924102783203125int,
        pow5(70) == 8470329472543003390683225006796419620513916015625int,
        pow5(71) == 42351647362715016953416125033982098102569580078125int,
        pow5(72) == 211758236813575084767080625169910490512847900390625int,
        pow5(73) == 1058791184067875423835403125849552452564239501953125int,
        pow5(74) == 5293955920339377119177015629247762262821197509765625int,
        pow5(75) == 26469779601696885595885078146238811314105987548828125int,
        pow5(76) == 132348898008484427979425390731194056570529937744140625int,
        pow5(77) == 661744490042422139897126953655970282852649688720703125int,
        pow5(78) == 3308722450212110699485634768279851414263248443603515625int,
        pow5(79) == 16543612251060553497428173841399257071316242218017578125int,
{
    lemma_pow5_values_0();
    lemma_pow5(39);
    lemma_pow5(40);
    lemma_pow5(41);
    lemma_pow5(42);
    lemma_pow5(43);
    lemma_pow5(44);
    lemma_pow5(45);
    lemma_pow5(46);
    lemma_pow5(47);
    lemma_pow5(48);
    lemma_pow5(49);
    lemma_pow5(50);
    lemma_pow5(51);
    lemma_pow5(52);
    lemma_pow5(53);
    lemma_pow5(54);
    lemma_pow5(55);
    lemma_pow5(56);
    lemma_pow5(57);
    lemma_pow5(58);
    lemma_pow5(59);
    lemma_pow5(60);
    lemma_pow5(61);
    lemma_pow5(62);
    lemma_pow5(63);
    lemma_pow5(64);
    lemma_pow5(65);
    lemma_pow5(66);
    lemma_pow5(67);
    lemma_pow5(68);
    lemma_pow5(69);
    lemma_pow5(70);
    lemma_pow5(71);
    lemma_pow5(72);
    lemma_pow5(73);
    lemma_pow5(74);
    lemma_pow5(75);
    lemma_pow5(76);
    lemma_pow5(77);
    lemma_pow5(78);
}

/// A part of the powers of five, written out.
proof fn lemma_pow5_values_2()
    ensures
        pow5(80) == 82718061255302767487140869206996285356581211090087890625int,
        pow5(81) == 413590306276513837435704346034981426782906055450439453125int,
        pow5(82) == 2067951531382569187178521730174907133914530277252197265625int,
        pow5(83) == 10339757656912845935892608650874535669572651386260986328125int,
        pow5(84) == 51698788284564229679463043254372678347863256931304931640625int,
        pow5(85) == 258493941422821148397315216271863391739316284656524658203125int,
        pow5(86) == 1292469707114105741986576081359316958696581423282623291015625int,
        pow5(87) == 6462348535570528709932880406796584793482907116413116455078125int,
        pow5(88) == 32311742677852643549664402033982923967414535582065582275390625int,
        pow5(89) == 161558713389263217748322010169914619837072677910327911376953125int,
        pow5(90) == 807793566946316088741610050849573099185363389551639556884765625int,
        pow5(91) == 4038967834731580443708050254247865495926816947758197784423828125int,
        pow5(92) == 20194839173657902218540251271239327479634084738790988922119140625int,
        pow5(93) == 100974195868289511092701256356196637398170423693954944610595703125int,
        pow5(94) == 504870979341447555463506281780983186990852118469774723052978515625int,
        pow5(95) == 2524354896707237777317531408904915934954260592348873615264892578125int,
        pow5(96) == 12621774483536188886587657044524579674771302961744368076324462890625int,
        pow5(97) == 63108872417680944432938285222622898373856514808721840381622314453125int,
        pow5(98) == 315544362088404722164691426113114491869282574043609201908111572265625int,
        pow5(99) == 1577721810442023610823457130565572459346412870218046009540557861328125int,
        pow5(100) == 7888609052210118054117285652827862296732064351090230047702789306640625int,
        pow5(101) == 39443045261050590270586428264139311483660321755451150238513946533203125int,
        pow5(102) == 197215226305252951352932141320696557418301608777255751192569732666015625int,
        pow5(103) == 986076131526264756764660706603482787091508043886278755962848663330078125int,
        pow5(104) == 4930380657631323783823303533017413935457540219431393779814243316650390625int,
        pow5(105) == 24651903288156618919116517665087069677287701097156968899071216583251953125int,
        pow5(106) == 123259516440783094595582588325435348386438505485784844495356082916259765625int,
        pow5(107) == 616297582203915472977912941627176741932192527428924222476780414581298828125int,
        pow5(108) == 3081487911019577364889564708135883709660962637144621112383902072906494140625int,
        pow5(109) == 15407439555097886824447823540679418548304813185723105561919510364532470703125int,
        pow5(110) == 77037197775489434122239117703397092741524065928615527809597551822662353515625int,
        pow5(111) == 385185988877447170611195588516985463707620329643077639047987759113311767578125int,
        pow5(112) == 1925929944387235853055977942584927318538101648215388195239938795566558837890625int,
        pow5(113) == 9629649721936179265279889712924636592690508241076940976199693977832794189453125int,
        pow5(114) == 48148248609680896326399448564623182963452541205384704880998469889163970947265625int,
        pow5(115) == 240741243048404481631997242823115914817262706026923524404992349445819854736328125int,
        pow5(116) == 1203706215242022408159986214115579574086313530134617622024961747229099273681640625int,
        pow5(117) == 6018531076210112040799931070577897870431567650673088110124808736145496368408203125int,
        pow5(118) == 30092655381050560203999655352889489352157838253365440550624043680727481842041015625int,
        pow5(119) == 150463276905252801019998276764447446760789191266827202753120218403637409210205078125int,
{
    lemma_pow5_values_1();
    lemma_pow5(79);
    lemma_pow5(80);
    lemma_pow5(81);
    lemma_pow5(82);
    lemma_pow5(83);
    lemma_pow5(84);
    lemma_pow5(85);
    lemma_pow5(86);
    lemma_pow5(87);
    lemma_pow5(88);
    lemma_pow5(89);
    lemma_pow5(90);
    lemma_pow5(91);
    lemma_pow5(92);
    lemma_pow5(93);
    lemma_pow5(94);
    lemma_pow5(95);
    lemma_pow5(96);
    lemma_pow5(97);
    lemma_pow5(98);
    lemma_pow5(99);
    lemma_pow5(100);
    lemma_pow5(101);
    lemma_pow5(102);
    lemma_pow5(103);
    lemma_pow5(104);
    lemma_pow5(105);
    lemma_pow5(106);
    lemma_pow5(107);
    lemma_pow5(108);
    lemma_pow5(109);
    lemma_pow5(110);
    lemma_pow5(111);
    lemma_pow5(112);
    lemma_pow5(113);
    lemma_pow5(114);
    lemma_pow5(115);
    lemma_pow5(116);
    lemma_pow5(117);
    lemma_pow5(118);
}

/// A part of the powers of five, written out.
proof fn lemma_pow5_values_3()
    ensures
        pow5(120) == 752316384526264005099991383822237233803945956334136013765601092018187046051025390625int,
        pow5(121) == 3761581922631320025499956919111186169019729781670680068828005460090935230255126953125int,
        pow5(122) == 18807909613156600127499784595555930845098648908353400344140027300454676151275634765625int,
        pow5(123) == 94039548065783000637498922977779654225493244541767001720700136502273380756378173828125int,
        pow5(124) == 470197740328915003187494614888898271127466222708835008603500682511366903781890869140625int,
        pow5(125) == 2350988701644575015937473074444491355637331113544175043017503412556834518909454345703125int,
        pow5(126) == 11754943508222875079687365372222456778186655567720875215087517062784172594547271728515625int,
        pow5(127) == 58774717541114375398436826861112283890933277838604376075437585313920862972736358642578125int,
        pow5(128) == 293873587705571876992184134305561419454666389193021880377187926569604314863681793212890625int,
        pow5(129) == 1469367938527859384960920671527807097273331945965109401885939632848021574318408966064453125int,
        pow5(130) == 7346839692639296924804603357639035486366659729825547009429698164240107871592044830322265625int,
        pow5(131) == 36734198463196484624023016788195177431833298649127735047148490821200539357960224151611328125int,
        pow5(132) == 183670992315982423120115083940975887159166493245638675235742454106002696789801120758056640625int,
        pow5(133) == 918354961579912115600575419704879435795832466228193376178712270530013483949005603790283203125int,
        pow5(134) == 4591774807899560578002877098524397178979162331140966880893561352650067419745028018951416015625int,
        pow5(135) == 22958874039497802890014385492621985894895811655704834404467806763250337098725140094757080078125int,
        pow5(136) == 114794370197489014450071927463109929474479058278524172022339033816251685493625700473785400390625int,
        pow5(137) == 573971850987445072250359637315549647372395291392620860111695169081258427468128502368927001953125int,
        pow5(138) == 2869859254937225361251798186577748236861976456963104300558475845406292137340642511844635009765625int,
        pow5(139) == 14349296274686126806258990932888741184309882284815521502792379227031460686703212559223175048828125int,
        pow5(140) == 71746481373430634031294954664443705921549411424077607513961896135157303433516062796115875244140625int,
        pow5(141) == 358732406867153170156474773322218529607747057120388037569809480675786517167580313980579376220703125int,
        pow5(142) == 1793662034335765850782373866611092648038735285601940187849047403378932585837901569902896881103515625int,
        pow5(143) == 8968310171678829253911869333055463240193676428009700939245237016894662929189507849514484405517578125int,
        pow5(144) == 44841550858394146269559346665277316200968382140048504696226185084473314645947539247572422027587890625int,
        pow5(145) == 224207754291970731347796733326386581004841910700242523481130925422366573229737696237862110137939453125int,
        pow5(146) == 1121038771459853656738983666631932905024209553501212617405654627111832866148688481189310550689697265625int,
        pow5(147) == 5605193857299268283694918333159664525121047767506063087028273135559164330743442405946552753448486328125int,
        pow5(148) == 28025969286496341418474591665798322625605238837530315435141365677795821653717212029732763767242431640625int,
        pow5(149) == 140129846432481707092372958328991613128026194187651577175706828388979108268586060148663818836212158203125int,
        pow5(150) == 700649232162408535461864791644958065640130970938257885878534141944895541342930300743319094181060791015625int,
        pow5(151) == 3503246160812042677309323958224790328200654854691289429392670709724477706714651503716595470905303955078125int,
        pow5(152) == 17516230804060213386546619791123951641003274273456447146963353548622388533573257518582977354526519775390625int,
        pow5(153) == 87581154020301066932733098955619758205016371367282235734816767743111942667866287592914886772632598876953125int,
        pow5(154) == 437905770101505334663665494778098791025081856836411178674083838715559713339331437964574433863162994384765625int,
        pow5(155) == 2189528850507526673318327473890493955125409284182055893370419193577798566696657189822872169315814971923828125int,
        pow5(156) == 10947644252537633366591637369452469775627046420910279466852095967888992833483285949114360846579074859619140625int,
        pow5(157) == 54738221262688166832958186847262348878135232104551397334260479839444964167416429745571804232895374298095703125int,
        pow5(158) == 273691106313440834164790934236311744390676160522756986671302399197224820837082148727859021164476871490478515625int,
        pow5(159) == 1368455531567204170823954671181558721953380802613784933356511995986124104185410743639295105822384357452392578125int,
{
    lemma_pow5_values_2();
    lemma_pow5(119);
    lemma_pow5(120);
    lemma_pow5(121);
    lemma_pow5(122);
    lemma_pow5(123);
    lemma_pow5(124);
    lemma_pow5(125);
    lemma_pow5(126);
    lemma_pow5(127);
    lemma_pow5(128);
    lemma_pow5(129);
    lemma_pow5(130);
    lemma_pow5(131);
    lemma_pow5(132);
    lemma_pow5(133);
    lemma_pow5(134);
    lemma_pow5(135);
    lemma_pow5(136);
    lemma_pow5(137);
    lemma_pow5(138);
    lemma_pow5(139);
    lemma_pow5(140);
    lemma_pow5(141);
    lemma_pow5(142);
    lemma_pow5(143);
    lemma_pow5(144);
    lemma_pow5(145);
    lemma_pow5(146);
    lemma_pow5(147);
    lemma_pow5(148);
    lemma_pow5(149);
    lemma_pow5(150);
    lemma_pow5(151);
    lemma_pow5(152);
    lemma_pow5(153);
    lemma_pow5(154);
    lemma_pow5(155);
    lemma_pow5(156);
    lemma_pow5(157);
    lemma_pow5(158);
}

/// A part of the powers of five, written out.
proof fn lemma_pow5_values_4()
    ensures
        pow5(160) == 6842277657836020854119773355907793609766904013068924666782559979930620520927053718196475529111921787261962890625int,
        pow5(161) == 34211388289180104270598866779538968048834520065344623333912799899653102604635268590982377645559608936309814453125int,
        pow5(162) == 171056941445900521352994333897694840244172600326723116669563999498265513023176342954911888227798044681549072265625int,
        pow5(163) == 855284707229502606764971669488474201220863001633615583347819997491327565115881714774559441138990223407745361328125int,
        pow5(164) == 4276423536147513033824858347442371006104315008168077916739099987456637825579408573872797205694951117038726806640625int,
        pow5(165) == 21382117680737565169124291737211855030521575040840389583695499937283189127897042869363986028474755585193634033203125int,
        pow5(166) == 106910588403687825845621458686059275152607875204201947918477499686415945639485214346819930142373777925968170166015625int,
        pow5(167) == 534552942018439129228107293430296375763039376021009739592387498432079728197426071734099650711868889629840850830078125int,
        pow5(168) == 2672764710092195646140536467151481878815196880105048697961937492160398640987130358670498253559344448149204254150390625int,
        pow5(169) == 13363823550460978230702682335757409394075984400525243489809687460801993204935651793352491267796722240746021270751953125int,
        pow5(170) == 66819117752304891153513411678787046970379922002626217449048437304009966024678258966762456338983611203730106353759765625int,
        pow5(171) == 334095588761524455767567058393935234851899610013131087245242186520049830123391294833812281694918056018650531768798828125int,
        pow5(172) == 1670477943807622278837835291969676174259498050065655436226210932600249150616956474169061408474590280093252658843994140625int,
        pow5(173) == 8352389719038111394189176459848380871297490250328277181131054663001245753084782370845307042372951400466263294219970703125int,
        pow5(174) == 41761948595190556970945882299241904356487451251641385905655273315006228765423911854226535211864757002331316471099853515625int,
        pow5(175) == 208809742975952784854729411496209521782437256258206929528276366575031143827119559271132676059323785011656582355499267578125int,
        pow5(176) == 1044048714879763924273647057481047608912186281291034647641381832875155719135597796355663380296618925058282911777496337890625int,
        pow5(177) == 5220243574398819621368235287405238044560931406455173238206909164375778595677988981778316901483094625291414558887481689453125int,
        pow5(178) == 26101217871994098106841176437026190222804657032275866191034545821878892978389944908891584507415473126457072794437408447265625int,
        pow5(179) == 130506089359970490534205882185130951114023285161379330955172729109394464891949724544457922537077365632285363972187042236328125int,
        pow5(180) == 652530446799852452671029410925654755570116425806896654775863645546972324459748622722289612685386828161426819860935211181640625int,
        pow5(181) == 3262652233999262263355147054628273777850582129034483273879318227734861622298743113611448063426934140807134099304676055908203125int,
        pow5(182) == 16313261169996311316775735273141368889252910645172416369396591138674308111493715568057240317134670704035670496523380279541015625int,
        pow5(183) == 81566305849981556583878676365706844446264553225862081846982955693371540557468577840286201585673353520178352482616901397705078125int,
        pow5(184) == 407831529249907782919393381828534222231322766129310409234914778466857702787342889201431007928366767600891762413084506988525390625int,
        pow5(185) == 2039157646249538914596966909142671111156613830646552046174573892334288513936714446007155039641833838004458812065422534942626953125int,
        pow5(186) == 10195788231247694572984834545713355555783069153232760230872869461671442569683572230035775198209169190022294060327112674713134765625int,
        pow5(187) == 50978941156238472864924172728566777778915345766163801154364347308357212848417861150178875991045845950111470301635563373565673828125int,
        pow5(188) == 254894705781192364324620863642833888894576728830819005771821736541786064242089305750894379955229229750557351508177816867828369140625int,
        pow5(189) == 1274473528905961821623104318214169444472883644154095028859108682708930321210446528754471899776146148752786757540889084339141845703125int,
        pow5(190) == 6372367644529809108115521591070847222364418220770475144295543413544651606052232643772359498880730743763933787704445421695709228515625int,
        pow5(191) == 31861838222649045540577607955354236111822091103852375721477717067723258030261163218861797494403653718819668938522227108478546142578125int,
        pow5(192) == 159309191113245227702888039776771180559110455519261878607388585338616290151305816094308987472018268594098344692611135542392730712890625int,
        pow5(193) == 796545955566226138514440198883855902795552277596309393036942926693081450756529080471544937360091342970491723463055677711963653564453125int,
        pow5(194) == 3982729777831130692572200994419279513977761387981546965184714633465407253782645402357724686800456714852458617315278388559818267822265625int,
        pow5(195) == 19913648889155653462861004972096397569888806939907734825923573167327036268913227011788623434002283574262293086576391942799091339111328125int,
        pow5(196) == 99568244445778267314305024860481987849444034699538674129617865836635181344566135058943117170011417871311465432881959713995456695556640625int,
        pow5(197) == 497841222228891336571525124302409939247220173497693370648089329183175906722830675294715585850057089356557327164409798569977283477783203125int,
        pow5(198) == 2489206111144456682857625621512049696236100867488466853240446645915879533614153376473577929250285446782786635822048992849886417388916015625int,
        pow5(199) == 12446030555722283414288128107560248481180504337442334266202233229579397668070766882367889646251427233913933179110244964249432086944580078125int,
{
    lemma_pow5_values_3();
    lemma_pow5(159);
    lemma_pow5(160);
    lemma_pow5(161);
    lemma_pow5(162);
    lemma_pow5(163);
    lemma_pow5(164);
    lemma_pow5(165);
    lemma_pow5(166);
    lemma_pow5(167);
    lemma_pow5(168);
    lemma_pow5(169);
    lemma_pow5(170);
    lemma_pow5(171);
    lemma_pow5(172);
    lemma_pow5(173);
    lemma_pow5(174);
    lemma_pow5(175);
    lemma_pow5(176);
    lemma_pow5(177);
    lemma_pow5(178);
    lemma_pow5(179);
    lemma_pow5(180);
    lemma_pow5(181);
    lemma_pow5(182);
    lemma_pow5(183);
    lemma_pow5(184);
    lemma_pow5(185);
    lemma_pow5(186);
    lemma_pow5(187);
    lemma_pow5(188);
    lemma_pow5(189);
    lemma_pow5(190);
    lemma_pow5(191);
    lemma_pow5(192);
    lemma_pow5(193);
    lemma_pow5(194);
    lemma_pow5(195);
    lemma_pow5(196);
    lemma_pow5(197);
    lemma_pow5(198);
}

/// A part of the powers of five, written out.
proof fn lemma_pow5_values_5()
    ensures
        pow5(200) == 62230152778611417071440640537801242405902521687211671331011166147896988340353834411839448231257136169569665895551224821247160434722900390625int,
        pow5(201) == 311150763893057085357203202689006212029512608436058356655055830739484941701769172059197241156285680847848329477756124106235802173614501953125int,
        pow5(202) == 1555753819465285426786016013445031060147563042180291783275279153697424708508845860295986205781428404239241647388780620531179010868072509765625int,
        pow5(203) == 7778769097326427133930080067225155300737815210901458916376395768487123542544229301479931028907142021196208236943903102655895054340362548828125int,
        pow5(204) == 38893845486632135669650400336125776503689076054507294581881978842435617712721146507399655144535710105981041184719515513279475271701812744140625int,
        pow5(205) == 194469227433160678348252001680628882518445380272536472909409894212178088563605732536998275722678550529905205923597577566397376358509063720703125int,
        pow5(206) == 972346137165803391741260008403144412592226901362682364547049471060890442818028662684991378613392752649526029617987887831986881792545318603515625int,
        pow5(207) == 4861730685829016958706300042015722062961134506813411822735247355304452214090143313424956893066963763247630148089939439159934408962726593017578125int,
        pow5(208) == 24308653429145084793531500210078610314805672534067059113676236776522261070450716567124784465334818816238150740449697195799672044813632965087890625int,
        pow5(209) == 121543267145725423967657501050393051574028362670335295568381183882611305352253582835623922326674094081190753702248485978998360224068164825439453125int,
        pow5(210) == 607716335728627119838287505251965257870141813351676477841905919413056526761267914178119611633370470405953768511242429894991801120340824127197265625int,
        pow5(211) == 3038581678643135599191437526259826289350709066758382389209529597065282633806339570890598058166852352029768842556212149474959005601704120635986328125int,
        pow5(212) == 15192908393215677995957187631299131446753545333791911946047647985326413169031697854452990290834261760148844212781060747374795028008520603179931640625int,
        pow5(213) == 75964541966078389979785938156495657233767726668959559730238239926632065845158489272264951454171308800744221063905303736873975140042603015899658203125int,
        pow5(214) == 379822709830391949898929690782478286168838633344797798651191199633160329225792446361324757270856544003721105319526518684369875700213015079498291015625int,
        pow5(215) == 1899113549151959749494648453912391430844193166723988993255955998165801646128962231806623786354282720018605526597632593421849378501065075397491455078125int,
        pow5(216) == 9495567745759798747473242269561957154220965833619944966279779990829008230644811159033118931771413600093027632988162967109246892505325376987457275390625int,
        pow5(217) == 47477838728798993737366211347809785771104829168099724831398899954145041153224055795165594658857068000465138164940814835546234462526626884937286376953125int,
        pow5(218) == 237389193643994968686831056739048928855524145840498624156994499770725205766120278975827973294285340002325690824704074177731172312633134424686431884765625int,
        pow5(219) == 1186945968219974843434155283695244644277620729202493120784972498853626028830601394879139866471426700011628454123520370888655861563165672123432159423828125int,
        pow5(220) == 5934729841099874217170776418476223221388103646012465603924862494268130144153006974395699332357133500058142270617601854443279307815828360617160797119140625int,
        pow5(221) == 29673649205499371085853882092381116106940518230062328019624312471340650720765034871978496661785667500290711353088009272216396539079141803085803985595703125int,
        pow5(222) == 148368246027496855429269410461905580534702591150311640098121562356703253603825174359892483308928337501453556765440046361081982695395709015429019927978515625int,
        pow5(223) == 741841230137484277146347052309527902673512955751558200490607811783516268019125871799462416544641687507267783827200231805409913476978545077145099639892578125int,
        pow5(224) == 3709206150687421385731735261547639513367564778757791002453039058917581340095629358997312082723208437536338919136001159027049567384892725385725498199462890625int,
        pow5(225) == 18546030753437106928658676307738197566837823893788955012265195294587906700478146794986560413616042187681694595680005795135247836924463626928627490997314453125int,
        pow5(226) == 92730153767185534643293381538690987834189119468944775061325976472939533502390733974932802068080210938408472978400028975676239184622318134643137454986572265625int,
        pow5(227) == 463650768835927673216466907693454939170945597344723875306629882364697667511953669874664010340401054692042364892000144878381195923111590673215687274932861328125int,
        pow5(228) == 2318253844179638366082334538467274695854727986723619376533149411823488337559768349373320051702005273460211824460000724391905979615557953366078436374664306640625int,
        pow5(229) == 11591269220898191830411672692336373479273639933618096882665747059117441687798841746866600258510026367301059122300003621959529898077789766830392181873321533203125int,
        pow5(230) == 57956346104490959152058363461681867396368199668090484413328735295587208438994208734333001292550131836505295611500018109797649490388948834151960909366607666015625int,
        pow5(231) == 289781730522454795760291817308409336981840998340452422066643676477936042194971043671665006462750659182526478057500090548988247451944744170759804546833038330078125int,
        pow5(232) == 1448908652612273978801459086542046684909204991702262110333218382389680210974855218358325032313753295912632390287500452744941237259723720853799022734165191650390625int,
        pow5(233) == 7244543263061369894007295432710233424546024958511310551666091911948401054874276091791625161568766479563161951437502263724706186298618604268995113670825958251953125int,
        pow5(234) == 36222716315306849470036477163551167122730124792556552758330459559742005274371380458958125807843832397815809757187511318623530931493093021344975568354129791259765625int,
        pow5(235) == 181113581576534247350182385817755835613650623962782763791652297798710026371856902294790629039219161989079048785937556593117654657465465106724877841770648956298828125int,
        pow5(236) == 905567907882671236750911929088779178068253119813913818958261488993550131859284511473953145196095809945395243929687782965588273287327325533624389208853244781494140625int,
        pow5(237) == 4527839539413356183754559645443895890341265599069569094791307444967750659296422557369765725980479049726976219648438914827941366436636627668121946044266223907470703125int,
        pow5(238) == 22639197697066780918772798227219479451706327995347845473956537224838753296482112786848828629902395248634881098242194574139706832183183138340609730221331119537353515625int,
        pow5(239) == 113195988485333904593863991136097397258531639976739227369782686124193766482410563934244143149511976243174405491210972870698534160915915691703048651106655597686767578125int,
{
    lemma_pow5_values_4();
    lemma_pow5(199);
    lemma_pow5(200);
    lemma_pow5(201);
    lemma_pow5(202);
    lemma_pow5(203);
    lemma_pow5(204);
    lemma_pow5(205);
    lemma_pow5(206);
    lemma_pow5(207);
    lemma_pow5(208);
    lemma_pow5(209);
    lemma_pow5(210);
    lemma_pow5(211);
    lemma_pow5(212);
    lemma_pow5(213);
    lemma_pow5(214);
    lemma_pow5(215);
    lemma_pow5(216);
    lemma_pow5(217);
    lemma_pow5(218);
    lemma_pow5(219);
    lemma_pow5(220);
    lemma_pow5(221);
    lemma_pow5(222);
    lemma_pow5(223);
    lemma_pow5(224);
    lemma_pow5(225);
    lemma_pow5(226);
    lemma_pow5(227);
    lemma_pow5(228);
    lemma_pow5(229);
    lemma_pow5(230);
    lemma_pow5(231);
    lemma_pow5(232);
    lemma_pow5(233);
    lemma_pow5(234);
    lemma_pow5(235);
    lemma_pow5(236);
    lemma_pow5(237);
    lemma_pow5(238);
}

/// A part of the powers of five, written out.
proof fn lemma_pow5_values_6()
    ensures
        pow5(240) == 565979942426669522969319955680486986292658199883696136848913430620968832412052819671220715747559881215872027456054864353492670804579578458515243255533277988433837890625int,
        pow5(241) == 2829899712133347614846599778402434931463290999418480684244567153104844162060264098356103578737799406079360137280274321767463354022897892292576216277666389942169189453125int,
        pow5(242) == 14149498560666738074232998892012174657316454997092403421222835765524220810301320491780517893688997030396800686401371608837316770114489461462881081388331949710845947265625int,
        pow5(243) == 70747492803333690371164994460060873286582274985462017106114178827621104051506602458902589468444985151984003432006858044186583850572447307314405406941659748554229736328125int,
        pow5(244) == 353737464016668451855824972300304366432911374927310085530570894138105520257533012294512947342224925759920017160034290220932919252862236536572027034708298742771148681640625int,
        pow5(245) == 1768687320083342259279124861501521832164556874636550427652854470690527601287665061472564736711124628799600085800171451104664596264311182682860135173541493713855743408203125int,
        pow5(246) == 8843436600416711296395624307507609160822784373182752138264272353452638006438325307362823683555623143998000429000857255523322981321555913414300675867707468569278717041015625int,
        pow5(247) == 44217183002083556481978121537538045804113921865913760691321361767263190032191626536814118417778115719990002145004286277616614906607779567071503379338537342846393585205078125int,
        pow5(248) == 221085915010417782409890607687690229020569609329568803456606808836315950160958132684070592088890578599950010725021431388083074533038897835357516896692686714231967926025390625int,
        pow5(249) == 1105429575052088912049453038438451145102848046647844017283034044181579750804790663420352960444452892999750053625107156940415372665194489176787584483463433571159839630126953125int,
        pow5(250) == 5527147875260444560247265192192255725514240233239220086415170220907898754023953317101764802222264464998750268125535784702076863325972445883937922417317167855799198150634765625int,
        pow5(251) == 27635739376302222801236325960961278627571201166196100432075851104539493770119766585508824011111322324993751340627678923510384316629862229419689612086585839278995990753173828125int,
        pow5(252) == 138178696881511114006181629804806393137856005830980502160379255522697468850598832927544120055556611624968756703138394617551921583149311147098448060432929196394979953765869140625int,
        pow5(253) == 690893484407555570030908149024031965689280029154902510801896277613487344252994164637720600277783058124843783515691973087759607915746555735492240302164645981974899768829345703125int,
        pow5(254) == 3454467422037777850154540745120159828446400145774512554009481388067436721264970823188603001388915290624218917578459865438798039578732778677461201510823229909874498844146728515625int,
        pow5(255) == 17272337110188889250772703725600799142232000728872562770047406940337183606324854115943015006944576453121094587892299327193990197893663893387306007554116149549372494220733642578125int,
        pow5(256) == 86361685550944446253863518628003995711160003644362813850237034701685918031624270579715075034722882265605472939461496635969950989468319466936530037770580747746862471103668212890625int,
        pow5(257) == 431808427754722231269317593140019978555800018221814069251185173508429590158121352898575375173614411328027364697307483179849754947341597334682650188852903738734312355518341064453125int,
        pow5(258) == 2159042138773611156346587965700099892779000091109070346255925867542147950790606764492876875868072056640136823486537415899248774736707986673413250944264518693671561777591705322265625int,
        pow5(259) == 10795210693868055781732939828500499463895000455545351731279629337710739753953033822464384379340360283200684117432687079496243873683539933367066254721322593468357808887958526611328125int,
        pow5(260) == 53976053469340278908664699142502497319475002277726758656398146688553698769765169112321921896701801416003420587163435397481219368417699666835331273606612967341789044439792633056640625int,
        pow5(261) == 269880267346701394543323495712512486597375011388633793281990733442768493848825845561609609483509007080017102935817176987406096842088498334176656368033064836708945222198963165283203125int,
        pow5(262) == 1349401336733506972716617478562562432986875056943168966409953667213842469244129227808048047417545035400085514679085884937030484210442491670883281840165324183544726110994815826416015625int,
        pow5(263) == 6747006683667534863583087392812812164934375284715844832049768336069212346220646139040240237087725177000427573395429424685152421052212458354416409200826620917723630554974079132080078125int,
        pow5(264) == 33735033418337674317915436964064060824671876423579224160248841680346061731103230695201201185438625885002137866977147123425762105261062291772082046004133104588618152774870395660400390625int,
        pow5(265) == 168675167091688371589577184820320304123359382117896120801244208401730308655516153476006005927193129425010689334885735617128810526305311458860410230020665522943090763874351978302001953125int,
        pow5(266) == 843375835458441857947885924101601520616796910589480604006221042008651543277580767380030029635965647125053446674428678085644052631526557294302051150103327614715453819371759891510009765625int,
        pow5(267) == 4216879177292209289739429620508007603083984552947403020031105210043257716387903836900150148179828235625267233372143390428220263157632786471510255750516638073577269096858799457550048828125int,
        pow5(268) == 21084395886461046448697148102540038015419922764737015100155526050216288581939519184500750740899141178126336166860716952141101315788163932357551278752583190367886345484293997287750244140625int,
        pow5(269) == 105421979432305232243485740512700190077099613823685075500777630251081442909697595922503753704495705890631680834303584760705506578940819661787756393762915951839431727421469986438751220703125int,
        pow5(270) == 527109897161526161217428702563500950385498069118425377503888151255407214548487979612518768522478529453158404171517923803527532894704098308938781968814579759197158637107349932193756103515625int,
        pow5(271) == 2635549485807630806087143512817504751927490345592126887519440756277036072742439898062593842612392647265792020857589619017637664473520491544693909844072898795985793185536749660968780517578125int,
        pow5(272) == 13177747429038154030435717564087523759637451727960634437597203781385180363712199490312969213061963236328960104287948095088188322367602457723469549220364493979928965927683748304843902587890625int,
        pow5(273) == 65888737145190770152178587820437618798187258639803172187986018906925901818560997451564846065309816181644800521439740475440941611838012288617347746101822469899644829638418741524219512939453125int,
        pow5(274) == 329443685725953850760892939102188093990936293199015860939930094534629509092804987257824230326549080908224002607198702377204708059190061443086738730509112349498224148192093707621097564697265625int,
        pow5(275) == 1647218428629769253804464695510940469954681465995079304699650472673147545464024936289121151632745404541120013035993511886023540295950307215433693652545561747491120740960468538105487823486328125int,
        pow5(276) == 8236092143148846269022323477554702349773407329975396523498252363365737727320124681445605758163727022705600065179967559430117701479751536077168468262727808737455603704802342690527439117431640625int,
        pow5(277) == 41180460715744231345111617387773511748867036649876982617491261816828688636600623407228028790818635113528000325899837797150588507398757680385842341313639043687278018524011713452637195587158203125int,
        pow5(278) == 205902303578721156725558086938867558744335183249384913087456309084143443183003117036140143954093175567640001629499188985752942536993788401929211706568195218436390092620058567263185977935791015625int,
        pow5(279) == 1029511517893605783627790434694337793721675916246924565437281545420717215915015585180700719770465877838200008147495944928764712684968942009646058532840976092181950463100292836315929889678955078125int,
{
    lemma_pow5_values_5();
    lemma_pow5(239);
    lemma_pow5(240);
    lemma_pow5(241);
    lemma_pow5(242);
    lemma_pow5(243);
    lemma_pow5(244);
    lemma_pow5(245);
    lemma_pow5(246);
    lemma_pow5(247);
    lemma_pow5(248);
    lemma_pow5(249);
    lemma_pow5(250);
    lemma_pow5(251);
    lemma_pow5(252);
    lemma_pow5(253);
    lemma_pow5(254);
    lemma_pow5(255);
    lemma_pow5(256);
    lemma_pow5(257);
    lemma_pow5(258);
    lemma_pow5(259);
    lemma_pow5(260);
    lemma_pow5(261);
    lemma_pow5(262);
    lemma_pow5(263);
    lemma_pow5(264);
    lemma_pow5(265);
    lemma_pow5(266);
    lemma_pow5(267);
    lemma_pow5(268);
    lemma_pow5(269);
    lemma_pow5(270);
    lemma_pow5(271);
    lemma_pow5(272);
    lemma_pow5(273);
    lemma_pow5(274);
    lemma_pow5(275);
    lemma_pow5(276);
    lemma_pow5(277);
    lemma_pow5(278);
}

/// A part of the powers of five, written out.
proof fn lemma_pow5_values_7()
    ensures
        pow5(280) == 5147557589468028918138952173471688968608379581234622827186407727103586079575077925903503598852329389191000040737479724643823563424844710048230292664204880460909752315501464181579649448394775390625int,
        pow5(281) == 25737787947340144590694760867358444843041897906173114135932038635517930397875389629517517994261646945955000203687398623219117817124223550241151463321024402304548761577507320907898247241973876953125int,
        pow5(282) == 128688939736700722953473804336792224215209489530865570679660193177589651989376948147587589971308234729775001018436993116095589085621117751205757316605122011522743807887536604539491236209869384765625int,
        pow5(283) == 643444698683503614767369021683961121076047447654327853398300965887948259946884740737937949856541173648875005092184965580477945428105588756028786583025610057613719039437683022697456181049346923828125int,
        pow5(284) == 3217223493417518073836845108419805605380237238271639266991504829439741299734423703689689749282705868244375025460924827902389727140527943780143932915128050288068595197188415113487280905246734619140625int,
        pow5(285) == 16086117467087590369184225542099028026901186191358196334957524147198706498672118518448448746413529341221875127304624139511948635702639718900719664575640251440342975985942075567436404526233673095703125int,
        pow5(286) == 80430587335437951845921127710495140134505930956790981674787620735993532493360592592242243732067646706109375636523120697559743178513198594503598322878201257201714879929710377837182022631168365478515625int,
        pow5(287) == 402152936677189759229605638552475700672529654783954908373938103679967662466802962961211218660338233530546878182615603487798715892565992972517991614391006286008574399648551889185910113155841827392578125int,
        pow5(288) == 2010764683385948796148028192762378503362648273919774541869690518399838312334014814806056093301691167652734390913078017438993579462829964862589958071955031430042871998242759445929550565779209136962890625int,
        pow5(289) == 10053823416929743980740140963811892516813241369598872709348452591999191561670074074030280466508455838263671954565390087194967897314149824312949790359775157150214359991213797229647752828896045684814453125int,
        pow5(290) == 50269117084648719903700704819059462584066206847994363546742262959995957808350370370151402332542279191318359772826950435974839486570749121564748951798875785751071799956068986148238764144480228424072265625int,
        pow5(291) == 251345585423243599518503524095297312920331034239971817733711314799979789041751851850757011662711395956591798864134752179874197432853745607823744758994378928755358999780344930741193820722401142120361328125int,
        pow5(292) == 1256727927116217997592517620476486564601655171199859088668556573999898945208759259253785058313556979782958994320673760899370987164268728039118723794971894643776794998901724653705969103612005710601806640625int,
        pow5(293) == 6283639635581089987962588102382432823008275855999295443342782869999494726043796296268925291567784898914794971603368804496854935821343640195593618974859473218883974994508623268529845518060028553009033203125int,
        pow5(294) == 31418198177905449939812940511912164115041379279996477216713914349997473630218981481344626457838924494573974858016844022484274679106718200977968094874297366094419874972543116342649227590300142765045166015625int,
        pow5(295) == 157090990889527249699064702559560820575206896399982386083569571749987368151094907406723132289194622472869874290084220112421373395533591004889840474371486830472099374862715581713246137951500713825225830078125int,
        pow5(296) == 785454954447636248495323512797804102876034481999911930417847858749936840755474537033615661445973112364349371450421100562106866977667955024449202371857434152360496874313577908566230689757503569126129150390625int,
        pow5(297) == 3927274772238181242476617563989020514380172409999559652089239293749684203777372685168078307229865561821746857252105502810534334888339775122246011859287170761802484371567889542831153448787517845630645751953125int,
        pow5(298) == 19636373861190906212383087819945102571900862049997798260446196468748421018886863425840391536149327809108734286260527514052671674441698875611230059296435853809012421857839447714155767243937589228153228759765625int,
        pow5(299) == 98181869305954531061915439099725512859504310249988991302230982343742105094434317129201957680746639045543671431302637570263358372208494378056150296482179269045062109289197238570778836219687946140766143798828125int,
        pow5(300) == 490909346529772655309577195498627564297521551249944956511154911718710525472171585646009788403733195227718357156513187851316791861042471890280751482410896345225310546445986192853894181098439730703830718994140625int,
        pow5(301) == 2454546732648863276547885977493137821487607756249724782555774558593552627360857928230048942018665976138591785782565939256583959305212359451403757412054481726126552732229930964269470905492198653519153594970703125int,
        pow5(302) == 12272733663244316382739429887465689107438038781248623912778872792967763136804289641150244710093329880692958928912829696282919796526061797257018787060272408630632763661149654821347354527460993267595767974853515625int,
        pow5(303) == 61363668316221581913697149437328445537190193906243119563894363964838815684021448205751223550466649403464794644564148481414598982630308986285093935301362043153163818305748274106736772637304966337978839874267578125int,
        pow5(304) == 306818341581107909568485747186642227685950969531215597819471819824194078420107241028756117752333247017323973222820742407072994913151544931425469676506810215765819091528741370533683863186524831689894199371337890625int,
        pow5(305) == 1534091707905539547842428735933211138429754847656077989097359099120970392100536205143780588761666235086619866114103712035364974565757724657127348382534051078829095457643706852668419315932624158449470996856689453125int,
        pow5(306) == 7670458539527697739212143679666055692148774238280389945486795495604851960502681025718902943808331175433099330570518560176824872828788623285636741912670255394145477288218534263342096579663120792247354984283447265625int,
        pow5(307) == 38352292697638488696060718398330278460743871191401949727433977478024259802513405128594514719041655877165496652852592800884124364143943116428183709563351276970727386441092671316710482898315603961236774921417236328125int,
        pow5(308) == 191761463488192443480303591991651392303719355957009748637169887390121299012567025642972573595208279385827483264262964004420621820719715582140918547816756384853636932205463356583552414491578019806183874607086181640625int,
        pow5(309) == 958807317440962217401517959958256961518596779785048743185849436950606495062835128214862867976041396929137416321314820022103109103598577910704592739083781924268184661027316782917762072457890099030919373035430908203125int,
        pow5(310) == 4794036587204811087007589799791284807592983898925243715929247184753032475314175641074314339880206984645687081606574100110515545517992889553522963695418909621340923305136583914588810362289450495154596865177154541015625int,
        pow5(311) == 23970182936024055435037948998956424037964919494626218579646235923765162376570878205371571699401034923228435408032870500552577727589964447767614818477094548106704616525682919572944051811447252475772984325885772705078125int,
        pow5(312) == 119850914680120277175189744994782120189824597473131092898231179618825811882854391026857858497005174616142177040164352502762888637949822238838074092385472740533523082628414597864720259057236262378864921629428863525390625int,
        pow5(313) == 599254573400601385875948724973910600949122987365655464491155898094129059414271955134289292485025873080710885200821762513814443189749111194190370461927363702667615413142072989323601295286181311894324608147144317626953125int,
        pow5(314) == 2996272867003006929379743624869553004745614936828277322455779490470645297071359775671446462425129365403554426004108812569072215948745555970951852309636818513338077065710364946618006476430906559471623040735721588134765625int,
        pow5(315) == 14981364335015034646898718124347765023728074684141386612278897452353226485356798878357232312125646827017772130020544062845361079743727779854759261548184092566690385328551824733090032382154532797358115203678607940673828125int,
        pow5(316) == 74906821675075173234493590621738825118640373420706933061394487261766132426783994391786161560628234135088860650102720314226805398718638899273796307740920462833451926642759123665450161910772663986790576018393039703369140625int,
        pow5(317) == 374534108375375866172467953108694125593201867103534665306972436308830662133919971958930807803141170675444303250513601571134026993593194496368981538704602314167259633213795618327250809553863319933952880091965198516845703125int,
        pow5(318) == 1872670541876879330862339765543470627966009335517673326534862181544153310669599859794654039015705853377221516252568007855670134967965972481844907693523011570836298166068978091636254047769316599669764400459825992584228515625int,
        pow5(319) == 9363352709384396654311698827717353139830046677588366632674310907720766553347999298973270195078529266886107581262840039278350674839829862409224538467615057854181490830344890458181270238846582998348822002299129962921142578125int,
{
    lemma_pow5_values_6();
    lemma_pow5(279);
    lemma_pow5(280);
    lemma_pow5(281);
    lemma_pow5(282);
    lemma_pow5(283);
    lemma_pow5(284);
    lemma_pow5(285);
    lemma_pow5(286);
    lemma_pow5(287);
    lemma_pow5(288);
    lemma_pow5(289);
    lemma_pow5(290);
    lemma_pow5(291);
    lemma_pow5(292);
    lemma_pow5(293);
    lemma_pow5(294);
    lemma_pow5(295);
    lemma_pow5(296);
    lemma_pow5(297);
    lemma_pow5(298);
    lemma_pow5(299);
    lemma_pow5(300);
    lemma_pow5(301);
    lemma_pow5(302);
    lemma_pow5(303);
    lemma_pow5(304);
    lemma_pow5(305);
    lemma_pow5(306);
    lemma_pow5(307);
    lemma_pow5(308);
    lemma_pow5(309);
    lemma_pow5(310);
    lemma_pow5(311);
    lemma_pow5(312);
    lemma_pow5(313);
    lemma_pow5(314);
    lemma_pow5(315);
    lemma_pow5(316);
    lemma_pow5(317);
    lemma_pow5(318);
}

/// A part of the powers of five, written out.
proof fn lemma_pow5_values_8()
    ensures
        pow5(320) == 46816763546921983271558494138586765699150233387941833163371554538603832766739996494866350975392646334430537906314200196391753374199149312046122692338075289270907454151724452290906351194232914991744110011495649814605712890625int,
        pow5(321) == 234083817734609916357792470692933828495751166939709165816857772693019163833699982474331754876963231672152689531571000981958766870995746560230613461690376446354537270758622261454531755971164574958720550057478249073028564453125int,
        pow5(322) == 1170419088673049581788962353464669142478755834698545829084288863465095819168499912371658774384816158360763447657855004909793834354978732801153067308451882231772686353793111307272658779855822874793602750287391245365142822265625int,
        pow5(323) == 5852095443365247908944811767323345712393779173492729145421444317325479095842499561858293871924080791803817238289275024548969171774893664005765336542259411158863431768965556536363293899279114373968013751436956226825714111328125int,
        pow5(324) == 29260477216826239544724058836616728561968895867463645727107221586627395479212497809291469359620403959019086191446375122744845858874468320028826682711297055794317158844827782681816469496395571869840068757184781134128570556640625int,
        pow5(325) == 146302386084131197723620294183083642809844479337318228635536107933136977396062489046457346798102019795095430957231875613724229294372341600144133413556485278971585794224138913409082347481977859349200343785923905670642852783203125int,
        pow5(326) == 731511930420655988618101470915418214049222396686591143177680539665684886980312445232286733990510098975477154786159378068621146471861708000720667067782426394857928971120694567045411737409889296746001718929619528353214263916015625int,
        pow5(327) == 3657559652103279943090507354577091070246111983432955715888402698328424434901562226161433669952550494877385773930796890343105732359308540003603335338912131974289644855603472835227058687049446483730008594648097641766071319580078125int,
        pow5(328) == 18287798260516399715452536772885455351230559917164778579442013491642122174507811130807168349762752474386928869653984451715528661796542700018016676694560659871448224278017364176135293435247232418650042973240488208830356597900390625int,
        pow5(329) == 91438991302581998577262683864427276756152799585823892897210067458210610872539055654035841748813762371934644348269922258577643308982713500090083383472803299357241121390086820880676467176236162093250214866202441044151782989501953125int,
        pow5(330) == 457194956512909992886313419322136383780763997929119464486050337291053054362695278270179208744068811859673221741349611292888216544913567500450416917364016496786205606950434104403382335881180810466251074331012205220758914947509765625int,
        pow5(331) == 2285974782564549964431567096610681918903819989645597322430251686455265271813476391350896043720344059298366108706748056464441082724567837502252084586820082483931028034752170522016911679405904052331255371655061026103794574737548828125int,
        pow5(332) == 11429873912822749822157835483053409594519099948227986612151258432276326359067381956754480218601720296491830543533740282322205413622839187511260422934100412419655140173760852610084558397029520261656276858275305130518972873687744140625int,
        pow5(333) == 57149369564113749110789177415267047972595499741139933060756292161381631795336909783772401093008601482459152717668701411611027068114195937556302114670502062098275700868804263050422791985147601308281384291376525652594864368438720703125int,
        pow5(334) == 285746847820568745553945887076335239862977498705699665303781460806908158976684548918862005465043007412295763588343507058055135340570979687781510573352510310491378504344021315252113959925738006541406921456882628262974321842193603515625int,
        pow5(335) == 1428734239102843727769729435381676199314887493528498326518907304034540794883422744594310027325215037061478817941717535290275676702854898438907552866762551552456892521720106576260569799628690032707034607284413141314871609210968017578125int,
        pow5(336) == 7143671195514218638848647176908380996574437467642491632594536520172703974417113722971550136626075185307394089708587676451378383514274492194537764333812757762284462608600532881302848998143450163535173036422065706574358046054840087890625int,
        pow5(337) == 35718355977571093194243235884541904982872187338212458162972682600863519872085568614857750683130375926536970448542938382256891917571372460972688821669063788811422313043002664406514244990717250817675865182110328532871790230274200439453125int,
        pow5(338) == 178591779887855465971216179422709524914360936691062290814863413004317599360427843074288753415651879632684852242714691911284459587856862304863444108345318944057111565215013322032571224953586254088379325910551642664358951151371002197265625int,
        pow5(339) == 892958899439277329856080897113547624571804683455311454074317065021587996802139215371443767078259398163424261213573459556422297939284311524317220541726594720285557826075066610162856124767931270441896629552758213321794755756855010986328125int,
        pow5(340) == 4464794497196386649280404485567738122859023417276557270371585325107939984010696076857218835391296990817121306067867297782111489696421557621586102708632973601427789130375333050814280623839656352209483147763791066608973778784275054931640625int,
        pow5(341) == 22323972485981933246402022427838690614295117086382786351857926625539699920053480384286094176956484954085606530339336488910557448482107788107930513543164868007138945651876665254071403119198281761047415738818955333044868893921375274658203125int,
        pow5(342) == 111619862429909666232010112139193453071475585431913931759289633127698499600267401921430470884782424770428032651696682444552787242410538940539652567715824340035694728259383326270357015595991408805237078694094776665224344469606876373291015625int,
{
    lemma_pow5_values_7();
    lemma_pow5(319);
    lemma_pow5(320);
    lemma_pow5(321);
    lemma_pow5(322);
    lemma_pow5(323);
    lemma_pow5(324);
    lemma_pow5(325);
    lemma_pow5(326);
    lemma_pow5(327);
    lemma_pow5(328);
    lemma_pow5(329);
    lemma_pow5(330);
    lemma_pow5(331);
    lemma_pow5(332);
    lemma_pow5(333);
    lemma_pow5(334);
    lemma_pow5(335);
    lemma_pow5(336);
    lemma_pow5(337);
    lemma_pow5(338);
    lemma_pow5(339);
    lemma_pow5(340);
    lemma_pow5(341);
}

/// A part of the powers of two, written out.
proof fn lemma_pow2_values_0()
    ensures
        pow2(0) == 0x1int,
        pow2(1) == 0x2int,
        pow2(2) == 0x4int,
        pow2(3) == 0x8int,
        pow2(4) == 0x10int,
        pow2(5) == 0x20int,
        pow2(6) == 0x40int,
        pow2(7) == 0x80int,
        pow2(8) == 0x100int,
        pow2(9) == 0x200int,
        pow2(10) == 0x400int,
        pow2(11) == 0x800int,
        pow2(12) == 0x1000int,
        pow2(13) == 0x2000int,
        pow2(14) == 0x4000int,
        pow2(15) == 0x8000int,
        pow2(16) == 0x10000int,
        pow2(17) == 0x20000int,
        pow2(18) == 0x40000int,
        pow2(19) == 0x80000int,
        pow2(20) == 0x100000int,
        pow2(21) == 0x200000int,
        pow2(22) == 0x400000int,
        pow2(23) == 0x800000int,
        pow2(24) == 0x1000000int,
        pow2(25) == 0x2000000int,
        pow2(26) == 0x4000000int,
        pow2(27) == 0x8000000int,
        pow2(28) == 0x10000000int,
        pow2(29) == 0x20000000int,
        pow2(30) == 0x40000000int,
        pow2(31) == 0x80000000int,
        pow2(32) == 0x100000000int,
        pow2(33) == 0x200000000int,
        pow2(34) == 0x400000000int,
        pow2(35) == 0x800000000int,
        pow2(36) == 0x1000000000int,
        pow2(37) == 0x2000000000int,
        pow2(38) == 0x4000000000int,
        pow2(39) == 0x8000000000int,
{
    lemma2_to64();
    lemma_pow2_unfold(1);
    lemma_pow2_unfold(2);
    lemma_pow2_unfold(3);
    lemma_pow2_unfold(4);
    lemma_pow2_unfold(5);
    lemma_pow2_unfold(6);
    lemma_pow2_unfold(7);
    lemma_pow2_unfold(8);
    lemma_pow2_unfold(9);
    lemma_pow2_unfold(10);
    lemma_pow2_unfold(11);
    lemma_pow2_unfold(12);
    lemma_pow2_unfold(13);
    lemma_pow2_unfold(14);
    lemma_pow2_unfold(15);
    lemma_pow2_unfold(16);
    lemma_pow2_unfold(17);
    lemma_pow2_unfold(18);
    lemma_pow2_unfold(19);
    lemma_pow2_unfold(20);
    lemma_pow2_unfold(21);
    lemma_pow2_unfold(22);
    lemma_pow2_unfold(23);
    lemma_pow2_unfold(24);
    lemma_pow2_unfold(25);
    lemma_pow2_unfold(26);
    lemma_pow2_unfold(27);
    lemma_pow2_unfold(28);
    lemma_pow2_unfold(29);
    lemma_pow2_unfold(30);
    lemma_pow2_unfold(31);
    lemma_pow2_unfold(32);
    lemma_pow2_unfold(33);
    lemma_pow2_unfold(34);
    lemma_pow2_unfold(35);
    lemma_pow2_unfold(36);
    lemma_pow2_unfold(37);
    lemma_pow2_unfold(38);
    lemma_pow2_unfold(39);
}

/// A part of the powers of two, written out.
proof fn lemma_pow2_values_1()
    ensures
        pow2(40) == 0x10000000000int,
        pow2(41) == 0x20000000000int,
        pow2(42) == 0x40000000000int,
        pow2(43) == 0x80000000000int,
        pow2(44) == 0x100000000000int,
        pow2(45) == 0x200000000000int,
        pow2(46) == 0x400000000000int,
        pow2(47) == 0x800000000000int,
        pow2(48) == 0x1000000000000int,
        pow2(49) == 0x2000000000000int,
        pow2(50) == 0x4000000000000int,
        pow2(51) == 0x8000000000000int,
        pow2(52) == 0x10000000000000int,
        pow2(53) == 0x20000000000000int,
        pow2(54) == 0x40000000000000int,
        pow2(55) == 0x80000000000000int,
        pow2(56) == 0x100000000000000int,
        pow2(57) == 0x200000000000000int,
        pow2(58) == 0x400000000000000int,
        pow2(59) == 0x800000000000000int,
        pow2(60) == 0x1000000000000000int,
        pow2(61) == 0x2000000000000000int,
        pow2(62) == 0x4000000000000000int,
        pow2(63) == 0x8000000000000000int,
        pow2(64) == 0x10000000000000000int,
        pow2(65) == 0x20000000000000000int,
        pow2(66) == 0x40000000000000000int,
        pow2(67) == 0x80000000000000000int,
        pow2(68) == 0x100000000000000000int,
        pow2(69) == 0x200000000000000000int,
        pow2(70) == 0x400000000000000000int,
        pow2(71) == 0x800000000000000000int,
        pow2(72) == 0x1000000000000000000int,
        pow2(73) == 0x2000000000000000000int,
        pow2(74) == 0x4000000000000000000int,
        pow2(75) == 0x8000000000000000000int,
        pow2(76) == 0x10000000000000000000int,
        pow2(77) == 0x20000000000000000000int,
        pow2(78) == 0x40000000000000000000int,
        pow2(79) == 0x80000000000000000000int,
{
    lemma_pow2_values_0();
    lemma_pow2_unfold(40);
    lemma_pow2_unfold(41);
    lemma_pow2_unfold(42);
    lemma_pow2_unfold(43);
    lemma_pow2_unfold(44);
    lemma_pow2_unfold(45);
    lemma_pow2_unfold(46);
    lemma_pow2_unfold(47);
    lemma_pow2_unfold(48);
    lemma_pow2_unfold(49);
    lemma_pow2_unfold(50);
    lemma_pow2_unfold(51);
    lemma_pow2_unfold(52);
    lemma_pow2_unfold(53);
    lemma_pow2_unfold(54);
    lemma_pow2_unfold(55);
    lemma_pow2_unfold(56);
    lemma_pow2_unfold(57);
    lemma_pow2_unfold(58);
    lemma_pow2_unfold(59);
    lemma_pow2_unfold(60);
    lemma_pow2_unfold(61);
    lemma_pow2_unfold(62);
    lemma_pow2_unfold(63);
    lemma_pow2_unfold(64);
    lemma_pow2_unfold(65);
    lemma_pow2_unfold(66);
    lemma_pow2_unfold(67);
    lemma_pow2_unfold(68);
    lemma_pow2_unfold(69);
    lemma_pow2_unfold(70);
    lemma_pow2_unfold(71);
    lemma_pow2_unfold(72);
    lemma_pow2_unfold(73);
    lemma_pow2_unfold(74);
    lemma_pow2_unfold(75);
    lemma_pow2_unfold(76);
    lemma_pow2_unfold(77);
    lemma_pow2_unfold(78);
    lemma_pow2_unfold(79);
}

/// A part of the powers of two, written out.
proof fn lemma_pow2_values_2()
    ensures
        pow2(80) == 0x100000000000000000000int,
        pow2(81) == 0x200000000000000000000int,
        pow2(82) == 0x400000000000000000000int,
        pow2(83) == 0x800000000000000000000int,
        pow2(84) == 0x1000000000000000000000int,
        pow2(85) == 0x2000000000000000000000int,
        pow2(86) == 0x4000000000000000000000int,
        pow2(87) == 0x8000000000000000000000int,
        pow2(88) == 0x10000000000000000000000int,
        pow2(89) == 0x20000000000000000000000int,
        pow2(90) == 0x40000000000000000000000int,
        pow2(91) == 0x80000000000000000000000int,
        pow2(92) == 0x100000000000000000000000int,
        pow2(93) == 0x200000000000000000000000int,
        pow2(94) == 0x400000000000000000000000int,
        pow2(95) == 0x800000000000000000000000int,
        pow2(96) == 0x1000000000000000000000000int,
        pow2(97) == 0x2000000000000000000000000int,
        pow2(98) == 0x4000000000000000000000000int,
        pow2(99) == 0x8000000000000000000000000int,
        pow2(100) == 0x10000000000000000000000000int,
        pow2(101) == 0x20000000000000000000000000int,
        pow2(102) == 0x40000000000000000000000000int,
        pow2(103) == 0x80000000000000000000000000int,
        pow2(104) == 0x100000000000000000000000000int,
        pow2(105) == 0x200000000000000000000000000int,
        pow2(106) == 0x400000000000000000000000000int,
        pow2(107) == 0x800000000000000000000000000int,
        pow2(108) == 0x1000000000000000000000000000int,
        pow2(109) == 0x2000000000000000000000000000int,
        pow2(110) == 0x4000000000000000000000000000int,
        pow2(111) == 0x8000000000000000000000000000int,
        pow2(112) == 0x10000000000000000000000000000int,
        pow2(113) == 0x20000000000000000000000000000int,
        pow2(114) == 0x40000000000000000000000000000int,
        pow2(115) == 0x80000000000000000000000000000int,
        pow2(116) == 0x100000000000000000000000000000int,
        pow2(117) == 0x200000000000000000000000000000int,
        pow2(118) == 0x400000000000000000000000000000int,
        pow2(119) == 0x800000000000000000000000000000int,
{
    lemma_pow2_values_1();
    lemma_pow2_unfold(80);
    lemma_pow2_unfold(81);
    lemma_pow2_unfold(82);
    lemma_pow2_unfold(83);
    lemma_pow2_unfold(84);
    lemma_pow2_unfold(85);
    lemma_pow2_unfold(86);
    lemma_pow2_unfold(87);
    lemma_pow2_unfold(88);
    lemma_pow2_unfold(89);
    lemma_pow2_unfold(90);
    lemma_pow2_unfold(91);
    lemma_pow2_unfold(92);
    lemma_pow2_unfold(93);
    lemma_pow2_unfold(94);
    lemma_pow2_unfold(95);
    lemma_pow2_unfold(96);
    lemma_pow2_unfold(97);
    lemma_pow2_unfold(98);
    lemma_pow2_unfold(99);
    lemma_pow2_unfold(100);
    lemma_pow2_unfold(101);
    lemma_pow2_unfold(102);
    lemma_pow2_unfold(103);
    lemma_pow2_unfold(104);
    lemma_pow2_unfold(105);
    lemma_pow2_unfold(106);
    lemma_pow2_unfold(107);
    lemma_pow2_unfold(108);
    lemma_pow2_unfold(109);
    lemma_pow2_unfold(110);
    lemma_pow2_unfold(111);
    lemma_pow2_unfold(112);
    lemma_pow2_unfold(113);
    lemma_pow2_unfold(114);
    lemma_pow2_unfold(115);
    lemma_pow2_unfold(116);
    lemma_pow2_unfold(117);
    lemma_pow2_unfold(118);
    lemma_pow2_unfold(119);
}

/// A part of the powers of two, written out.
proof fn lemma_pow2_values_3()
    ensures
        pow2(120) == 0x1000000000000000000000000000000int,
        pow2(121) == 0x2000000000000000000000000000000int,
        pow2(122) == 0x4000000000000000000000000000000int,
        pow2(123) == 0x8000000000000000000000000000000int,
        pow2(124) == 0x10000000000000000000000000000000int,
        pow2(125) == 0x20000000000000000000000000000000int,
        pow2(126) == 0x40000000000000000000000000000000int,
        pow2(127) == 0x80000000000000000000000000000000int,
        pow2(128) == 0x100000000000000000000000000000000int,
        pow2(129) == 0x200000000000000000000000000000000int,
        pow2(130) == 0x400000000000000000000000000000000int,
        pow2(131) == 0x800000000000000000000000000000000int,
        pow2(132) == 0x1000000000000000000000000000000000int,
        pow2(133) == 0x2000000000000000000000000000000000int,
        pow2(134) == 0x4000000000000000000000000000000000int,
        pow2(135) == 0x8000000000000000000000000000000000int,
        pow2(136) == 0x10000000000000000000000000000000000int,
        pow2(137) == 0x20000000000000000000000000000000000int,
        pow2(138) == 0x40000000000000000000000000000000000int,
        pow2(139) == 0x80000000000000000000000000000000000int,
        pow2(140) == 0x100000000000000000000000000000000000int,
        pow2(141) == 0x200000000000000000000000000000000000int,
        pow2(142) == 0x400000000000000000000000000000000000int,
        pow2(143) == 0x800000000000000000000000000000000000int,
        pow2(144) == 0x1000000000000000000000000000000000000int,
        pow2(145) == 0x2000000000000000000000000000000000000int,
        pow2(146) == 0x4000000000000000000000000000000000000int,
        pow2(147) == 0x8000000000000000000000000000000000000int,
        pow2(148) == 0x10000000000000000000000000000000000000int,
        pow2(149) == 0x20000000000000000000000000000000000000int,
        pow2(150) == 0x40000000000000000000000000000000000000int,
        pow2(151) == 0x80000000000000000000000000000000000000int,
        pow2(152) == 0x100000000000000000000000000000000000000int,
        pow2(153) == 0x200000000000000000000000000000000000000int,
        pow2(154) == 0x400000000000000000000000000000000000000int,
        pow2(155) == 0x800000000000000000000000000000000000000int,
        pow2(156) == 0x1000000000000000000000000000000000000000int,
        pow2(157) == 0x2000000000000000000000000000000000000000int,
        pow2(158) == 0x4000000000000000000000000000000000000000int,
        pow2(159) == 0x8000000000000000000000000000000000000000int,
{
    lemma_pow2_values_2();
    lemma_pow2_unfold(120);
    lemma_pow2_unfold(121);
    lemma_pow2_unfold(122);
    lemma_pow2_unfold(123);
    lemma_pow2_unfold(124);
    lemma_pow2_unfold(125);
    lemma_pow2_unfold(126);
    lemma_pow2_unfold(127);
    lemma_pow2_unfold(128);
    lemma_pow2_unfold(129);
    lemma_pow2_unfold(130);
    lemma_pow2_unfold(131);
    lemma_pow2_unfold(132);
    lemma_pow2_unfold(133);
    lemma_pow2_unfold(134);
    lemma_pow2_unfold(135);
    lemma_pow2_unfold(136);
    lemma_pow2_unfold(137);
    lemma_pow2_unfold(138);
    lemma_pow2_unfold(139);
    lemma_pow2_unfold(140);
    lemma_pow2_unfold(141);
    lemma_pow2_unfold(142);
    lemma_pow2_unfold(143);
    lemma_pow2_unfold(144);
    lemma_pow2_unfold(145);
    lemma_pow2_unfold(146);
    lemma_pow2_unfold(147);
    lemma_pow2_unfold(148);
    lemma_pow2_unfold(149);
    lemma_pow2_unfold(150);
    lemma_pow2_unfold(151);
    lemma_pow2_unfold(152);
    lemma_pow2_unfold(153);
    lemma_pow2_unfold(154);
    lemma_pow2_unfold(155);
    lemma_pow2_unfold(156);
    lemma_pow2_unfold(157);
    lemma_pow2_unfold(158);
    lemma_pow2_unfold(159);
}

/// A part of the powers of two, written out.
proof fn lemma_pow2_values_4()
    ensures
        pow2(160) == 0x10000000000000000000000000000000000000000int,
        pow2(161) == 0x20000000000000000000000000000000000000000int,
        pow2(162) == 0x40000000000000000000000000000000000000000int,
        pow2(163) == 0x80000000000000000000000000000000000000000int,
        pow2(164) == 0x100000000000000000000000000000000000000000int,
        pow2(165) == 0x200000000000000000000000000000000000000000int,
        pow2(166) == 0x400000000000000000000000000000000000000000int,
        pow2(167) == 0x800000000000000000000000000000000000000000int,
        pow2(168) == 0x1000000000000000000000000000000000000000000int,
        pow2(169) == 0x2000000000000000000000000000000000000000000int,
        pow2(170) == 0x4000000000000000000000000000000000000000000int,
        pow2(171) == 0x8000000000000000000000000000000000000000000int,
        pow2(172) == 0x10000000000000000000000000000000000000000000int,
        pow2(173) == 0x20000000000000000000000000000000000000000000int,
        pow2(174) == 0x40000000000000000000000000000000000000000000int,
        pow2(175) == 0x80000000000000000000000000000000000000000000int,
        pow2(176) == 0x100000000000000000000000000000000000000000000int,
        pow2(177) == 0x200000000000000000000000000000000000000000000int,
        pow2(178) == 0x400000000000000000000000000000000000000000000int,
        pow2(179) == 0x800000000000000000000000000000000000000000000int,
        pow2(180) == 0x1000000000000000000000000000000000000000000000int,
        pow2(181) == 0x2000000000000000000000000000000000000000000000int,
        pow2(182) == 0x4000000000000000000000000000000000000000000000int,
        pow2(183) == 0x8000000000000000000000000000000000000000000000int,
        pow2(184) == 0x10000000000000000000000000000000000000000000000int,
        pow2(185) == 0x20000000000000000000000000000000000000000000000int,
        pow2(186) == 0x40000000000000000000000000000000000000000000000int,
        pow2(187) == 0x80000000000000000000000000000000000000000000000int,
        pow2(188) == 0x100000000000000000000000000000000000000000000000int,
        pow2(189) == 0x200000000000000000000000000000000000000000000000int,
        pow2(190) == 0x400000000000000000000000000000000000000000000000int,
        pow2(191) == 0x800000000000000000000000000000000000000000000000int,
        pow2(192) == 0x1000000000000000000000000000000000000000000000000int,
        pow2(193) == 0x2000000000000000000000000000000000000000000000000int,
        pow2(194) == 0x4000000000000000000000000000000000000000000000000int,
        pow2(195) == 0x8000000000000000000000000000000000000000000000000int,
        pow2(196) == 0x10000000000000000000000000000000000000000000000000int,
        pow2(197) == 0x20000000000000000000000000000000000000000000000000int,
        pow2(198) == 0x40000000000000000000000000000000000000000000000000int,
        pow2(199) == 0x80000000000000000000000000000000000000000000000000int,
{
    lemma_pow2_values_3();
    lemma_pow2_unfold(160);
    lemma_pow2_unfold(161);
    lemma_pow2_unfold(162);
    lemma_pow2_unfold(163);
    lemma_pow2_unfold(164);
    lemma_pow2_unfold(165);
    lemma_pow2_unfold(166);
    lemma_pow2_unfold(167);
    lemma_pow2_unfold(168);
    lemma_pow2_unfold(169);
    lemma_pow2_unfold(170);
    lemma_pow2_unfold(171);
    lemma_pow2_unfold(172);
    lemma_pow2_unfold(173);
    lemma_pow2_unfold(174);
    lemma_pow2_unfold(175);
    lemma_pow2_unfold(176);
    lemma_pow2_unfold(177);
    lemma_pow2_unfold(178);
    lemma_pow2_unfold(179);
    lemma_pow2_unfold(180);
    lemma_pow2_unfold(181);
    lemma_pow2_unfold(182);
    lemma_pow2_unfold(183);
    lemma_pow2_unfold(184);
    lemma_pow2_unfold(185);
    lemma_pow2_unfold(186);
    lemma_pow2_unfold(187);
    lemma_pow2_unfold(188);
    lemma_pow2_unfold(189);
    lemma_pow2_unfold(190);
    lemma_pow2_unfold(191);
    lemma_pow2_unfold(192);
    lemma_pow2_unfold(193);
    lemma_pow2_unfold(194);
    lemma_pow2_unfold(195);
    lemma_pow2_unfold(196);
    lemma_pow2_unfold(197);
    lemma_pow2_unfold(198);
    lemma_pow2_unfold(199);
}

/// A part of the powers of two, written out.
proof fn lemma_pow2_values_5()
    ensures
        pow2(200) == 0x100000000000000000000000000000000000000000000000000int,
        pow2(201) == 0x200000000000000000000000000000000000000000000000000int,
        pow2(202) == 0x400000000000000000000000000000000000000000000000000int,
        pow2(203) == 0x800000000000000000000000000000000000000000000000000int,
        pow2(204) == 0x1000000000000000000000000000000000000000000000000000int,
        pow2(205) == 0x2000000000000000000000000000000000000000000000000000int,
        pow2(206) == 0x4000000000000000000000000000000000000000000000000000int,
        pow2(207) == 0x8000000000000000000000000000000000000000000000000000int,
        pow2(208) == 0x10000000000000000000000000000000000000000000000000000int,
        pow2(209) == 0x20000000000000000000000000000000000000000000000000000int,
        pow2(210) == 0x40000000000000000000000000000000000000000000000000000int,
        pow2(211) == 0x80000000000000000000000000000000000000000000000000000int,
        pow2(212) == 0x100000000000000000000000000000000000000000000000000000int,
        pow2(213) == 0x200000000000000000000000000000000000000000000000000000int,
        pow2(214) == 0x400000000000000000000000000000000000000000000000000000int,
        pow2(215) == 0x800000000000000000000000000000000000000000000000000000int,
        pow2(216) == 0x1000000000000000000000000000000000000000000000000000000int,
        pow2(217) == 0x2000000000000000000000000000000000000000000000000000000int,
        pow2(218) == 0x4000000000000000000000000000000000000000000000000000000int,
        pow2(219) == 0x8000000000000000000000000000000000000000000000000000000int,
        pow2(220) == 0x10000000000000000000000000000000000000000000000000000000int,
        pow2(221) == 0x20000000000000000000000000000000000000000000000000000000int,
        pow2(222) == 0x40000000000000000000000000000000000000000000000000000000int,
        pow2(223) == 0x80000000000000000000000000000000000000000000000000000000int,
        pow2(224) == 0x100000000000000000000000000000000000000000000000000000000int,
        pow2(225) == 0x200000000000000000000000000000000000000000000000000000000int,
        pow2(226) == 0x400000000000000000000000000000000000000000000000000000000int,
        pow2(227) == 0x800000000000000000000000000000000000000000000000000000000int,
        pow2(228) == 0x1000000000000000000000000000000000000000000000000000000000int,
        pow2(229) == 0x2000000000000000000000000000000000000000000000000000000000int,
        pow2(230) == 0x4000000000000000000000000000000000000000000000000000000000int,
        pow2(231) == 0x8000000000000000000000000000000000000000000000000000000000int,
        pow2(232) == 0x10000000000000000000000000000000000000000000000000000000000int,
        pow2(233) == 0x20000000000000000000000000000000000000000000000000000000000int,
        pow2(234) == 0x40000000000000000000000000000000000000000000000000000000000int,
        pow2(235) == 0x80000000000000000000000000000000000000000000000000000000000int,
        pow2(236) == 0x100000000000000000000000000000000000000000000000000000000000int,
        pow2(237) == 0x200000000000000000000000000000000000000000000000000000000000int,
        pow2(238) == 0x400000000000000000000000000000000000000000000000000000000000int,
        pow2(239) == 0x800000000000000000000000000000000000000000000000000000000000int,
{
    lemma_pow2_values_4();
    lemma_pow2_unfold(200);
    lemma_pow2_unfold(201);
    lemma_pow2_unfold(202);
    lemma_pow2_unfold(203);
    lemma_pow2_unfold(204);
    lemma_pow2_unfold(205);
    lemma_pow2_unfold(206);
    lemma_pow2_unfold(207);
    lemma_pow2_unfold(208);
    lemma_pow2_unfold(209);
    lemma_pow2_unfold(210);
    lemma_pow2_unfold(211);
    lemma_pow2_unfold(212);
    lemma_pow2_unfold(213);
    lemma_pow2_unfold(214);
    lemma_pow2_unfold(215);
    lemma_pow2_unfold(216);
    lemma_pow2_unfold(217);
    lemma_pow2_unfold(218);
    lemma_pow2_unfold(219);
    lemma_pow2_unfold(220);
    lemma_pow2_unfold(221);
    lemma_pow2_unfold(222);
    lemma_pow2_unfold(223);
    lemma_pow2_unfold(224);
    lemma_pow2_unfold(225);
    lemma_pow2_unfold(226);
    lemma_pow2_unfold(227);
    lemma_pow2_unfold(228);
    lemma_pow2_unfold(229);
    lemma_pow2_unfold(230);
    lemma_pow2_unfold(231);
    lemma_pow2_unfold(232);
    lemma_pow2_unfold(233);
    lemma_pow2_unfold(234);
    lemma_pow2_unfold(235);
    lemma_pow2_unfold(236);
    lemma_pow2_unfold(237);
    lemma_pow2_unfold(238);
    lemma_pow2_unfold(239);
}

/// A part of the powers of two, written out.
proof fn lemma_pow2_values_6()
    ensures
        pow2(240) == 0x1000000000000000000000000000000000000000000000000000000000000int,
        pow2(241) == 0x2000000000000000000000000000000000000000000000000000000000000int,
        pow2(242) == 0x4000000000000000000000000000000000000000000000000000000000000int,
        pow2(243) == 0x8000000000000000000000000000000000000000000000000000000000000int,
        pow2(244) == 0x10000000000000000000000000000000000000000000000000000000000000int,
        pow2(245) == 0x20000000000000000000000000000000000000000000000000000000000000int,
        pow2(246) == 0x40000000000000000000000000000000000000000000000000000000000000int,
        pow2(247) == 0x80000000000000000000000000000000000000000000000000000000000000int,
        pow2(248) == 0x100000000000000000000000000000000000000000000000000000000000000int,
        pow2(249) == 0x200000000000000000000000000000000000000000000000000000000000000int,
        pow2(250) == 0x400000000000000000000000000000000000000000000000000000000000000int,
        pow2(251) == 0x800000000000000000000000000000000000000000000000000000000000000int,
        pow2(252) == 0x1000000000000000000000000000000000000000000000000000000000000000int,
        pow2(253) == 0x2000000000000000000000000000000000000000000000000000000000000000int,
        pow2(254) == 0x4000000000000000000000000000000000000000000000000000000000000000int,
        pow2(255) == 0x8000000000000000000000000000000000000000000000000000000000000000int,
        pow2(256) == 0x10000000000000000000000000000000000000000000000000000000000000000int,
        pow2(257) == 0x20000000000000000000000000000000000000000000000000000000000000000int,
        pow2(258) == 0x40000000000000000000000000000000000000000000000000000000000000000int,
        pow2(259) == 0x80000000000000000000000000000000000000000000000000000000000000000int,
        pow2(260) == 0x100000000000000000000000000000000000000000000000000000000000000000int,
        pow2(261) == 0x200000000000000000000000000000000000000000000000000000000000000000int,
        pow2(262) == 0x400000000000000000000000000000000000000000000000000000000000000000int,
        pow2(263) == 0x800000000000000000000000000000000000000000000000000000000000000000int,
        pow2(264) == 0x1000000000000000000000000000000000000000000000000000000000000000000int,
        pow2(265) == 0x2000000000000000000000000000000000000000000000000000000000000000000int,
        pow2(266) == 0x4000000000000000000000000000000000000000000000000000000000000000000int,
        pow2(267) == 0x8000000000000000000000000000000000000000000000000000000000000000000int,
        pow2(268) == 0x10000000000000000000000000000000000000000000000000000000000000000000int,
        pow2(269) == 0x20000000000000000000000000000000000000000000000000000000000000000000int,
        pow2(270) == 0x40000000000000000000000000000000000000000000000000000000000000000000int,
        pow2(271) == 0x80000000000000000000000000000000000000000000000000000000000000000000int,
        pow2(272) == 0x100000000000000000000000000000000000000000000000000000000000000000000int,
        pow2(273) == 0x200000000000000000000000000000000000000000000000000000000000000000000int,
        pow2(274) == 0x400000000000000000000000000000000000000000000000000000000000000000000int,
        pow2(275) == 0x800000000000000000000000000000000000000000000000000000000000000000000int,
        pow2(276) == 0x1000000000000000000000000000000000000000000000000000000000000000000000int,
        pow2(277) == 0x2000000000000000000000000000000000000000000000000000000000000000000000int,
        pow2(278) == 0x4000000000000000000000000000000000000000000000000000000000000000000000int,
        pow2(279) == 0x8000000000000000000000000000000000000000000000000000000000000000000000int,
{
    lemma_pow2_values_5();
    lemma_pow2_unfold(240);
    lemma_pow2_unfold(241);
    lemma_pow2_unfold(242);
    lemma_pow2_unfold(243);
    lemma_pow2_unfold(244);
    lemma_pow2_unfold(245);
    lemma_pow2_unfold(246);
    lemma_pow2_unfold(247);
    lemma_pow2_unfold(248);
    lemma_pow2_unfold(249);
    lemma_pow2_unfold(250);
    lemma_pow2_unfold(251);
    lemma_pow2_unfold(252);
    lemma_pow2_unfold(253);
    lemma_pow2_unfold(254);
    lemma_pow2_unfold(255);
    lemma_pow2_unfold(256);
    lemma_pow2_unfold(257);
    lemma_pow2_unfold(258);
    lemma_pow2_unfold(259);
    lemma_pow2_unfold(260);
    lemma_pow2_unfold(261);
    lemma_pow2_unfold(262);
    lemma_pow2_unfold(263);
    lemma_pow2_unfold(264);
    lemma_pow2_unfold(265);
    lemma_pow2_unfold(266);
    lemma_pow2_unfold(267);
    lemma_pow2_unfold(268);
    lemma_pow2_unfold(269);
    lemma_pow2_unfold(270);
    lemma_pow2_unfold(271);
    lemma_pow2_unfold(272);
    lemma_pow2_unfold(273);
    lemma_pow2_unfold(274);
    lemma_pow2_unfold(275);
    lemma_pow2_unfold(276);
    lemma_pow2_unfold(277);
    lemma_pow2_unfold(278);
    lemma_pow2_unfold(279);
}

/// A part of the powers of two, written out.
proof fn lemma_pow2_values_7()
    ensures
        pow2(280) == 0x10000000000000000000000000000000000000000000000000000000000000000000000int,
        pow2(281) == 0x20000000000000000000000000000000000000000000000000000000000000000000000int,
        pow2(282) == 0x40000000000000000000000000000000000000000000000000000000000000000000000int,
        pow2(283) == 0x80000000000000000000000000000000000000000000000000000000000000000000000int,
        pow2(284) == 0x100000000000000000000000000000000000000000000000000000000000000000000000int,
        pow2(285) == 0x200000000000000000000000000000000000000000000000000000000000000000000000int,
        pow2(286) == 0x400000000000000000000000000000000000000000000000000000000000000000000000int,
        pow2(287) == 0x800000000000000000000000000000000000000000000000000000000000000000000000int,
        pow2(288) == 0x1000000000000000000000000000000000000000000000000000000000000000000000000int,
        pow2(289) == 0x2000000000000000000000000000000000000000000000000000000000000000000000000int,
        pow2(290) == 0x4000000000000000000000000000000000000000000000000000000000000000000000000int,
        pow2(291) == 0x8000000000000000000000000000000000000000000000000000000000000000000000000int,
        pow2(292) == 0x10000000000000000000000000000000000000000000000000000000000000000000000000int,
        pow2(293) == 0x20000000000000000000000000000000000000000000000000000000000000000000000000int,
        pow2(294) == 0x40000000000000000000000000000000000000000000000000000000000000000000000000int,
        pow2(295) == 0x80000000000000000000000000000000000000000000000000000000000000000000000000int,
        pow2(296) == 0x100000000000000000000000000000000000000000000000000000000000000000000000000int,
        pow2(297) == 0x200000000000000000000000000000000000000000000000000000000000000000000000000int,
        pow2(298) == 0x400000000000000000000000000000000000000000000000000000000000000000000000000int,
        pow2(299) == 0x800000000000000000000000000000000000000000000000000000000000000000000000000int,
        pow2(300) == 0x1000000000000000000000000000000000000000000000000000000000000000000000000000int,
        pow2(301) == 0x2000000000000000000000000000000000000000000000000000000000000000000000000000int,
        pow2(302) == 0x4000000000000000000000000000000000000000000000000000000000000000000000000000int,
        pow2(303) == 0x8000000000000000000000000000000000000000000000000000000000000000000000000000int,
        pow2(304) == 0x10000000000000000000000000000000000000000000000000000000000000000000000000000int,
        pow2(305) == 0x20000000000000000000000000000000000000000000000000000000000000000000000000000int,
        pow2(306) == 0x40000000000000000000000000000000000000000000000000000000000000000000000000000int,
        pow2(307) == 0x80000000000000000000000000000000000000000000000000000000000000000000000000000int,
        pow2(308) == 0x100000000000000000000000000000000000000000000000000000000000000000000000000000int,
        pow2(309) == 0x200000000000000000000000000000000000000000000000000000000000000000000000000000int,
        pow2(310) == 0x400000000000000000000000000000000000000000000000000000000000000000000000000000int,
        pow2(311) == 0x800000000000000000000000000000000000000000000000000000000000000000000000000000int,
        pow2(312) == 0x1000000000000000000000000000000000000000000000000000000000000000000000000000000int,
        pow2(313) == 0x2000000000000000000000000000000000000000000000000000000000000000000000000000000int,
        pow2(314) == 0x4000000000000000000000000000000000000000000000000000000000000000000000000000000int,
        pow2(315) == 0x8000000000000000000000000000000000000000000000000000000000000000000000000000000int,
        pow2(316) == 0x10000000000000000000000000000000000000000000000000000000000000000000000000000000int,
        pow2(317) == 0x20000000000000000000000000000000000000000000000000000000000000000000000000000000int,
        pow2(318) == 0x40000000000000000000000000000000000000000000000000000000000000000000000000000000int,
        pow2(319) == 0x80000000000000000000000000000000000000000000000000000000000000000000000000000000int,
{
    lemma_pow2_values_6();
    lemma_pow2_unfold(280);
    lemma_pow2_unfold(281);
    lemma_pow2_unfold(282);
    lemma_pow2_unfold(283);
    lemma_pow2_unfold(284);
    lemma_pow2_unfold(285);
    lemma_pow2_unfold(286);
    lemma_pow2_unfold(287);
    lemma_pow2_unfold(288);
    lemma_pow2_unfold(289);
    lemma_pow2_unfold(290);
    lemma_pow2_unfold(291);
    lemma_pow2_unfold(292);
    lemma_pow2_unfold(293);
    lemma_pow2_unfold(294);
    lemma_pow2_unfold(295);
    lemma_pow2_unfold(296);
    lemma_pow2_unfold(297);
    lemma_pow2_unfold(298);
    lemma_pow2_unfold(299);
    lemma_pow2_unfold(300);
    lemma_pow2_unfold(301);
    lemma_pow2_unfold(302);
    lemma_pow2_unfold(303);
    lemma_pow2_unfold(304);
    lemma_pow2_unfold(305);
    lemma_pow2_unfold(306);
    lemma_pow2_unfold(307);
    lemma_pow2_unfold(308);
    lemma_pow2_unfold(309);
    lemma_pow2_unfold(310);
    lemma_pow2_unfold(311);
    lemma_pow2_unfold(312);
    lemma_pow2_unfold(313);
    lemma_pow2_unfold(314);
    lemma_pow2_unfold(315);
    lemma_pow2_unfold(316);
    lemma_pow2_unfold(317);
    lemma_pow2_unfold(318);
    lemma_pow2_unfold(319);
}

/// A part of the powers of two, written out.
proof fn lemma_pow2_values_8()
    ensures
        pow2(320) == 0x100000000000000000000000000000000000000000000000000000000000000000000000000000000int,
        pow2(321) == 0x200000000000000000000000000000000000000000000000000000000000000000000000000000000int,
        pow2(322) == 0x400000000000000000000000000000000000000000000000000000000000000000000000000000000int,
        pow2(323) == 0x800000000000000000000000000000000000000000000000000000000000000000000000000000000int,
        pow2(324) == 0x1000000000000000000000000000000000000000000000000000000000000000000000000000000000int,
        pow2(325) == 0x2000000000000000000000000000000000000000000000000000000000000000000000000000000000int,
        pow2(326) == 0x4000000000000000000000000000000000000000000000000000000000000000000000000000000000int,
        pow2(327) == 0x8000000000000000000000000000000000000000000000000000000000000000000000000000000000int,
        pow2(328) == 0x10000000000000000000000000000000000000000000000000000000000000000000000000000000000int,
        pow2(329) == 0x20000000000000000000000000000000000000000000000000000000000000000000000000000000000int,
        pow2(330) == 0x40000000000000000000000000000000000000000000000000000000000000000000000000000000000int,
        pow2(331) == 0x80000000000000000000000000000000000000000000000000000000000000000000000000000000000int,
        pow2(332) == 0x100000000000000000000000000000000000000000000000000000000000000000000000000000000000int,
        pow2(333) == 0x200000000000000000000000000000000000000000000000000000000000000000000000000000000000int,
        pow2(334) == 0x400000000000000000000000000000000000000000000000000000000000000000000000000000000000int,
        pow2(335) == 0x800000000000000000000000000000000000000000000000000000000000000000000000000000000000int,
        pow2(336) == 0x1000000000000000000000000000000000000000000000000000000000000000000000000000000000000int,
        pow2(337) == 0x2000000000000000000000000000000000000000000000000000000000000000000000000000000000000int,
        pow2(338) == 0x4000000000000000000000000000000000000000000000000000000000000000000000000000000000000int,
        pow2(339) == 0x8000000000000000000000000000000000000000000000000000000000000000000000000000000000000int,
        pow2(340) == 0x10000000000000000000000000000000000000000000000000000000000000000000000000000000000000int,
        pow2(341) == 0x20000000000000000000000000000000000000000000000000000000000000000000000000000000000000int,
        pow2(342) == 0x40000000000000000000000000000000000000000000000000000000000000000000000000000000000000int,
        pow2(343) == 0x80000000000000000000000000000000000000000000000000000000000000000000000000000000000000int,
        pow2(344) == 0x100000000000000000000000000000000000000000000000000000000000000000000000000000000000000int,
        pow2(345) == 0x200000000000000000000000000000000000000000000000000000000000000000000000000000000000000int,
        pow2(346) == 0x400000000000000000000000000000000000000000000000000000000000000000000000000000000000000int,
        pow2(347) == 0x800000000000000000000000000000000000000000000000000000000000000000000000000000000000000int,
        pow2(348) == 0x1000000000000000000000000000000000000000000000000000000000000000000000000000000000000000int,
        pow2(349) == 0x2000000000000000000000000000000000000000000000000000000000000000000000000000000000000000int,
        pow2(350) == 0x4000000000000000000000000000000000000000000000000000000000000000000000000000000000000000int,
        pow2(351) == 0x8000000000000000000000000000000000000000000000000000000000000000000000000000000000000000int,
        pow2(352) == 0x10000000000000000000000000000000000000000000000000000000000000000000000000000000000000000int,
        pow2(353) == 0x20000000000000000000000000000000000000000000000000000000000000000000000000000000000000000int,
        pow2(354) == 0x40000000000000000000000000000000000000000000000000000000000000000000000000000000000000000int,
        pow2(355) == 0x80000000000000000000000000000000000000000000000000000000000000000000000000000000000000000int,
        pow2(356) == 0x100000000000000000000000000000000000000000000000000000000000000000000000000000000000000000int,
        pow2(357) == 0x200000000000000000000000000000000000000000000000000000000000000000000000000000000000000000int,
        pow2(358) == 0x400000000000000000000000000000000000000000000000000000000000000000000000000000000000000000int,
        pow2(359) == 0x800000000000000000000000000000000000000000000000000000000000000000000000000000000000000000int,
{
    lemma_pow2_values_7();
    lemma_pow2_unfold(320);
    lemma_pow2_unfold(321);
    lemma_pow2_unfold(322);
    lemma_pow2_unfold(323);
    lemma_pow2_unfold(324);
    lemma_pow2_unfold(325);
    lemma_pow2_unfold(326);
    lemma_pow2_unfold(327);
    lemma_pow2_unfold(328);
    lemma_pow2_unfold(329);
    lemma_pow2_unfold(330);
    lemma_pow2_unfold(331);
    lemma_pow2_unfold(332);
    lemma_pow2_unfold(333);
    lemma_pow2_unfold(334);
    lemma_pow2_unfold(335);
    lemma_pow2_unfold(336);
    lemma_pow2_unfold(337);
    lemma_pow2_unfold(338);
    lemma_pow2_unfold(339);
    lemma_pow2_unfold(340);
    lemma_pow2_unfold(341);
    lemma_pow2_unfold(342);
    lemma_pow2_unfold(343);
    lemma_pow2_unfold(344);
    lemma_pow2_unfold(345);
    lemma_pow2_unfold(346);
    lemma_pow2_unfold(347);
    lemma_pow2_unfold(348);
    lemma_pow2_unfold(349);
    lemma_pow2_unfold(350);
    lemma_pow2_unfold(351);
    lemma_pow2_unfold(352);
    lemma_pow2_unfold(353);
    lemma_pow2_unfold(354);
    lemma_pow2_unfold(355);
    lemma_pow2_unfold(356);
    lemma_pow2_unfold(357);
    lemma_pow2_unfold(358);
    lemma_pow2_unfold(359);
}

/// A part of the powers of two, written out.
proof fn lemma_pow2_values_9()
    ensures
        pow2(360) == 0x1000000000000000000000000000000000000000000000000000000000000000000000000000000000000000000int,
        pow2(361) == 0x2000000000000000000000000000000000000000000000000000000000000000000000000000000000000000000int,
        pow2(362) == 0x4000000000000000000000000000000000000000000000000000000000000000000000000000000000000000000int,
        pow2(363) == 0x8000000000000000000000000000000000000000000000000000000000000000000000000000000000000000000int,
        pow2(364) == 0x10000000000000000000000000000000000000000000000000000000000000000000000000000000000000000000int,
        pow2(365) == 0x20000000000000000000000000000000000000000000000000000000000000000000000000000000000000000000int,
        pow2(366) == 0x40000000000000000000000000000000000000000000000000000000000000000000000000000000000000000000int,
        pow2(367) == 0x80000000000000000000000000000000000000000000000000000000000000000000000000000000000000000000int,
        pow2(368) == 0x100000000000000000000000000000000000000000000000000000000000000000000000000000000000000000000int,
        pow2(369) == 0x200000000000000000000000000000000000000000000000000000000000000000000000000000000000000000000int,
        pow2(370) == 0x400000000000000000000000000000000000000000000000000000000000000000000000000000000000000000000int,
        pow2(371) == 0x800000000000000000000000000000000000000000000000000000000000000000000000000000000000000000000int,
        pow2(372) == 0x1000000000000000000000000000000000000000000000000000000000000000000000000000000000000000000000int,
        pow2(373) == 0x2000000000000000000000000000000000000000000000000000000000000000000000000000000000000000000000int,
        pow2(374) == 0x4000000000000000000000000000000000000000000000000000000000000000000000000000000000000000000000int,
        pow2(375) == 0x8000000000000000000000000000000000000000000000000000000000000000000000000000000000000000000000int,
        pow2(376) == 0x10000000000000000000000000000000000000000000000000000000000000000000000000000000000000000000000int,
        pow2(377) == 0x20000000000000000000000000000000000000000000000000000000000000000000000000000000000000000000000int,
        pow2(378) == 0x40000000000000000000000000000000000000000000000000000000000000000000000000000000000000000000000int,
        pow2(379) == 0x80000000000000000000000000000000000000000000000000000000000000000000000000000000000000000000000int,
        pow2(380) == 0x100000000000000000000000000000000000000000000000000000000000000000000000000000000000000000000000int,
        pow2(381) == 0x200000000000000000000000000000000000000000000000000000000000000000000000000000000000000000000000int,
        pow2(382) == 0x400000000000000000000000000000000000000000000000000000000000000000000000000000000000000000000000int,
        pow2(383) == 0x800000000000000000000000000000000000000000000000000000000000000000000000000000000000000000000000int,
        pow2(384) == 0x1000000000000000000000000000000000000000000000000000000000000000000000000000000000000000000000000int,
        pow2(385) == 0x2000000000000000000000000000000000000000000000000000000000000000000000000000000000000000000000000int,
        pow2(386) == 0x4000000000000000000000000000000000000000000000000000000000000000000000000000000000000000000000000int,
        pow2(387) == 0x8000000000000000000000000000000000000000000000000000000000000000000000000000000000000000000000000int,
        pow2(388) == 0x10000000000000000000000000000000000000000000000000000000000000000000000000000000000000000000000000int,
        pow2(389) == 0x20000000000000000000000000000000000000000000000000000000000000000000000000000000000000000000000000int,
        pow2(390) == 0x40000000000000000000000000000000000000000000000000000000000000000000000000000000000000000000000000int,
        pow2(391) == 0x80000000000000000000000000000000000000000000000000000000000000000000000000000000000000000000000000int,
        pow2(392) == 0x100000000000000000000000000000000000000000000000000000000000000000000000000000000000000000000000000int,
        pow2(393) == 0x200000000000000000000000000000000000000000000000000000000000000000000000000000000000000000000000000int,
        pow2(394) == 0x400000000000000000000000000000000000000000000000000000000000000000000000000000000000000000000000000int,
        pow2(395) == 0x800000000000000000000000000000000000000000000000000000000000000000000000000000000000000000000000000int,
        pow2(396) == 0x1000000000000000000000000000000000000000000000000000000000000000000000000000000000000000000000000000int,
        pow2(397) == 0x2000000000000000000000000000000000000000000000000000000000000000000000000000000000000000000000000000int,
        pow2(398) == 0x4000000000000000000000000000000000000000000000000000000000000000000000000000000000000000000000000000int,
        pow2(399) == 0x8000000000000000000000000000000000000000000000000000000000000000000000000000000000000000000000000000int,
{
    lemma_pow2_values_8();
    lemma_pow2_unfold(360);
    lemma_pow2_unfold(361);
    lemma_pow2_unfold(362);
    lemma_pow2_unfold(363);
    lemma_pow2_unfold(364);
    lemma_pow2_unfold(365);
    lemma_pow2_unfold(366);
    lemma_pow2_unfold(367);
    lemma_pow2_unfold(368);
    lemma_pow2_unfold(369);
    lemma_pow2_unfold(370);
    lemma_pow2_unfold(371);
    lemma_pow2_unfold(372);
    lemma_pow2_unfold(373);
    lemma_pow2_unfold(374);
    lemma_pow2_unfold(375);
    lemma_pow2_unfold(376);
    lemma_pow2_unfold(377);
    lemma_pow2_unfold(378);
    lemma_pow2_unfold(379);
    lemma_pow2_unfold(380);
    lemma_pow2_unfold(381);
    lemma_pow2_unfold(382);
    lemma_pow2_unfold(383);
    lemma_pow2_unfold(384);
    lemma_pow2_unfold(385);
    lemma_pow2_unfold(386);
    lemma_pow2_unfold(387);
    lemma_pow2_unfold(388);
    lemma_pow2_unfold(389);
    lemma_pow2_unfold(390);
    lemma_pow2_unfold(391);
    lemma_pow2_unfold(392);
    lemma_pow2_unfold(393);
    lemma_pow2_unfold(394);
    lemma_pow2_unfold(395);
    lemma_pow2_unfold(396);
    lemma_pow2_unfold(397);
    lemma_pow2_unfold(398);
    lemma_pow2_unfold(399);
}

/// A part of the powers of two, written out.
proof fn lemma_pow2_values_10()
    ensures
        pow2(400) == 0x10000000000000000000000000000000000000000000000000000000000000000000000000000000000000000000000000000int,
        pow2(401) == 0x20000000000000000000000000000000000000000000000000000000000000000000000000000000000000000000000000000int,
        pow2(402) == 0x40000000000000000000000000000000000000000000000000000000000000000000000000000000000000000000000000000int,
        pow2(403) == 0x80000000000000000000000000000000000000000000000000000000000000000000000000000000000000000000000000000int,
        pow2(404) == 0x100000000000000000000000000000000000000000000000000000000000000000000000000000000000000000000000000000int,
        pow2(405) == 0x200000000000000000000000000000000000000000000000000000000000000000000000000000000000000000000000000000int,
        pow2(406) == 0x400000000000000000000000000000000000000000000000000000000000000000000000000000000000000000000000000000int,
        pow2(407) == 0x800000000000000000000000000000000000000000000000000000000000000000000000000000000000000000000000000000int,
        pow2(408) == 0x1000000000000000000000000000000000000000000000000000000000000000000000000000000000000000000000000000000int,
        pow2(409) == 0x2000000000000000000000000000000000000000000000000000000000000000000000000000000000000000000000000000000int,
        pow2(410) == 0x4000000000000000000000000000000000000000000000000000000000000000000000000000000000000000000000000000000int,
        pow2(411) == 0x8000000000000000000000000000000000000000000000000000000000000000000000000000000000000000000000000000000int,
        pow2(412) == 0x10000000000000000000000000000000000000000000000000000000000000000000000000000000000000000000000000000000int,
        pow2(413) == 0x20000000000000000000000000000000000000000000000000000000000000000000000000000000000000000000000000000000int,
        pow2(414) == 0x40000000000000000000000000000000000000000000000000000000000000000000000000000000000000000000000000000000int,
        pow2(415) == 0x80000000000000000000000000000000000000000000000000000000000000000000000000000000000000000000000000000000int,
        pow2(416) == 0x100000000000000000000000000000000000000000000000000000000000000000000000000000000000000000000000000000000int,
        pow2(417) == 0x200000000000000000000000000000000000000000000000000000000000000000000000000000000000000000000000000000000int,
        pow2(418) == 0x400000000000000000000000000000000000000000000000000000000000000000000000000000000000000000000000000000000int,
        pow2(419) == 0x800000000000000000000000000000000000000000000000000000000000000000000000000000000000000000000000000000000int,
        pow2(420) == 0x1000000000000000000000000000000000000000000000000000000000000000000000000000000000000000000000000000000000int,
        pow2(421) == 0x2000000000000000000000000000000000000000000000000000000000000000000000000000000000000000000000000000000000int,
        pow2(422) == 0x4000000000000000000000000000000000000000000000000000000000000000000000000000000000000000000000000000000000int,
        pow2(423) == 0x8000000000000000000000000000000000000000000000000000000000000000000000000000000000000000000000000000000000int,
        pow2(424) == 0x10000000000000000000000000000000000000000000000000000000000000000000000000000000000000000000000000000000000int,
        pow2(425) == 0x20000000000000000000000000000000000000000000000000000000000000000000000000000000000000000000000000000000000int,
        pow2(426) == 0x40000000000000000000000000000000000000000000000000000000000000000000000000000000000000000000000000000000000int,
        pow2(427) == 0x80000000000000000000000000000000000000000000000000000000000000000000000000000000000000000000000000000000000int,
        pow2(428) == 0x100000000000000000000000000000000000000000000000000000000000000000000000000000000000000000000000000000000000int,
        pow2(429) == 0x200000000000000000000000000000000000000000000000000000000000000000000000000000000000000000000000000000000000int,
        pow2(430) == 0x400000000000000000000000000000000000000000000000000000000000000000000000000000000000000000000000000000000000int,
        pow2(431) == 0x800000000000000000000000000000000000000000000000000000000000000000000000000000000000000000000000000000000000int,
        pow2(432) == 0x1000000000000000000000000000000000000000000000000000000000000000000000000000000000000000000000000000000000000int,
        pow2(433) == 0x2000000000000000000000000000000000000000000000000000000000000000000000000000000000000000000000000000000000000int,
        pow2(434) == 0x4000000000000000000000000000000000000000000000000000000000000000000000000000000000000000000000000000000000000int,
        pow2(435) == 0x8000000000000000000000000000000000000000000000000000000000000000000000000000000000000000000000000000000000000int,
        pow2(436) == 0x10000000000000000000000000000000000000000000000000000000000000000000000000000000000000000000000000000000000000int,
        pow2(437) == 0x20000000000000000000000000000000000000000000000000000000000000000000000000000000000000000000000000000000000000int,
        pow2(438) == 0x40000000000000000000000000000000000000000000000000000000000000000000000000000000000000000000000000000000000000int,
        pow2(439) == 0x80000000000000000000000000000000000000000000000000000000000000000000000000000000000000000000000000000000000000int,
{
    lemma_pow2_values_9();
    lemma_pow2_unfold(400);
    lemma_pow2_unfold(401);
    lemma_pow2_unfold(402);
    lemma_pow2_unfold(403);
    lemma_pow2_unfold(404);
    lemma_pow2_unfold(405);
    lemma_pow2_unfold(406);
    lemma_pow2_unfold(407);
    lemma_pow2_unfold(408);
    lemma_pow2_unfold(409);
    lemma_pow2_unfold(410);
    lemma_pow2_unfold(411);
    lemma_pow2_unfold(412);
    lemma_pow2_unfold(413);
    lemma_pow2_unfold(414);
    lemma_pow2_unfold(415);
    lemma_pow2_unfold(416);
    lemma_pow2_unfold(417);
    lemma_pow2_unfold(418);
    lemma_pow2_unfold(419);
    lemma_pow2_unfold(420);
    lemma_pow2_unfold(421);
    lemma_pow2_unfold(422);
    lemma_pow2_unfold(423);
    lemma_pow2_unfold(424);
    lemma_pow2_unfold(425);
    lemma_pow2_unfold(426);
    lemma_pow2_unfold(427);
    lemma_pow2_unfold(428);
    lemma_pow2_unfold(429);
    lemma_pow2_unfold(430);
    lemma_pow2_unfold(431);
    lemma_pow2_unfold(432);
    lemma_pow2_unfold(433);
    lemma_pow2_unfold(434);
    lemma_pow2_unfold(435);
    lemma_pow2_unfold(436);
    lemma_pow2_unfold(437);
    lemma_pow2_unfold(438);
    lemma_pow2_unfold(439);
}

/// A part of the powers of two, written out.
proof fn lemma_pow2_values_11()
    ensures
        pow2(440) == 0x100000000000000000000000000000000000000000000000000000000000000000000000000000000000000000000000000000000000000int,
        pow2(441) == 0x200000000000000000000000000000000000000000000000000000000000000000000000000000000000000000000000000000000000000int,
        pow2(442) == 0x400000000000000000000000000000000000000000000000000000000000000000000000000000000000000000000000000000000000000int,
        pow2(443) == 0x800000000000000000000000000000000000000000000000000000000000000000000000000000000000000000000000000000000000000int,
        pow2(444) == 0x1000000000000000000000000000000000000000000000000000000000000000000000000000000000000000000000000000000000000000int,
        pow2(445) == 0x2000000000000000000000000000000000000000000000000000000000000000000000000000000000000000000000000000000000000000int,
        pow2(446) == 0x4000000000000000000000000000000000000000000000000000000000000000000000000000000000000000000000000000000000000000int,
        pow2(447) == 0x8000000000000000000000000000000000000000000000000000000000000000000000000000000000000000000000000000000000000000int,
        pow2(448) == 0x10000000000000000000000000000000000000000000000000000000000000000000000000000000000000000000000000000000000000000int,
        pow2(449) == 0x20000000000000000000000000000000000000000000000000000000000000000000000000000000000000000000000000000000000000000int,
        pow2(450) == 0x40000000000000000000000000000000000000000000000000000000000000000000000000000000000000000000000000000000000000000int,
        pow2(451) == 0x80000000000000000000000000000000000000000000000000000000000000000000000000000000000000000000000000000000000000000int,
        pow2(452) == 0x100000000000000000000000000000000000000000000000000000000000000000000000000000000000000000000000000000000000000000int,
        pow2(453) == 0x200000000000000000000000000000000000000000000000000000000000000000000000000000000000000000000000000000000000000000int,
        pow2(454) == 0x400000000000000000000000000000000000000000000000000000000000000000000000000000000000000000000000000000000000000000int,
        pow2(455) == 0x800000000000000000000000000000000000000000000000000000000000000000000000000000000000000000000000000000000000000000int,
        pow2(456) == 0x1000000000000000000000000000000000000000000000000000000000000000000000000000000000000000000000000000000000000000000int,
        pow2(457) == 0x2000000000000000000000000000000000000000000000000000000000000000000000000000000000000000000000000000000000000000000int,
        pow2(458) == 0x4000000000000000000000000000000000000000000000000000000000000000000000000000000000000000000000000000000000000000000int,
        pow2(459) == 0x8000000000000000000000000000000000000000000000000000000000000000000000000000000000000000000000000000000000000000000int,
        pow2(460) == 0x10000000000000000000000000000000000000000000000000000000000000000000000000000000000000000000000000000000000000000000int,
        pow2(461) == 0x20000000000000000000000000000000000000000000000000000000000000000000000000000000000000000000000000000000000000000000int,
        pow2(462) == 0x40000000000000000000000000000000000000000000000000000000000000000000000000000000000000000000000000000000000000000000int,
        pow2(463) == 0x80000000000000000000000000000000000000000000000000000000000000000000000000000000000000000000000000000000000000000000int,
        pow2(464) == 0x100000000000000000000000000000000000000000000000000000000000000000000000000000000000000000000000000000000000000000000int,
        pow2(465) == 0x200000000000000000000000000000000000000000000000000000000000000000000000000000000000000000000000000000000000000000000int,
        pow2(466) == 0x400000000000000000000000000000000000000000000000000000000000000000000000000000000000000000000000000000000000000000000int,
        pow2(467) == 0x800000000000000000000000000000000000000000000000000000000000000000000000000000000000000000000000000000000000000000000int,
        pow2(468) == 0x1000000000000000000000000000000000000000000000000000000000000000000000000000000000000000000000000000000000000000000000int,
        pow2(469) == 0x2000000000000000000000000000000000000000000000000000000000000000000000000000000000000000000000000000000000000000000000int,
        pow2(470) == 0x4000000000000000000000000000000000000000000000000000000000000000000000000000000000000000000000000000000000000000000000int,
        pow2(471) == 0x8000000000000000000000000000000000000000000000000000000000000000000000000000000000000000000000000000000000000000000000int,
        pow2(472) == 0x10000000000000000000000000000000000000000000000000000000000000000000000000000000000000000000000000000000000000000000000int,
        pow2(473) == 0x20000000000000000000000000000000000000000000000000000000000000000000000000000000000000000000000000000000000000000000000int,
        pow2(474) == 0x40000000000000000000000000000000000000000000000000000000000000000000000000000000000000000000000000000000000000000000000int,
        pow2(475) == 0x80000000000000000000000000000000000000000000000000000000000000000000000000000000000000000000000000000000000000000000000int,
        pow2(476) == 0x100000000000000000000000000000000000000000000000000000000000000000000000000000000000000000000000000000000000000000000000int,
        pow2(477) == 0x200000000000000000000000000000000000000000000000000000000000000000000000000000000000000000000000000000000000000000000000int,
        pow2(478) == 0x400000000000000000000000000000000000000000000000000000000000000000000000000000000000000000000000000000000000000000000000int,
        pow2(479) == 0x800000000000000000000000000000000000000000000000000000000000000000000000000000000000000000000000000000000000000000000000int,
{
    lemma_pow2_values_10();
    lemma_pow2_unfold(440);
    lemma_pow2_unfold(441);
    lemma_pow2_unfold(442);
    lemma_pow2_unfold(443);
    lemma_pow2_unfold(444);
    lemma_pow2_unfold(445);
    lemma_pow2_unfold(446);
    lemma_pow2_unfold(447);
    lemma_pow2_unfold(448);
    lemma_pow2_unfold(449);
    lemma_pow2_unfold(450);
    lemma_pow2_unfold(451);
    lemma_pow2_unfold(452);
    lemma_pow2_unfold(453);
    lemma_pow2_unfold(454);
    lemma_pow2_unfold(455);
    lemma_pow2_unfold(456);
    lemma_pow2_unfold(457);
    lemma_pow2_unfold(458);
    lemma_pow2_unfold(459);
    lemma_pow2_unfold(460);
    lemma_pow2_unfold(461);
    lemma_pow2_unfold(462);
    lemma_pow2_unfold(463);
    lemma_pow2_unfold(464);
    lemma_pow2_unfold(465);
    lemma_pow2_unfold(466);
    lemma_pow2_unfold(467);
    lemma_pow2_unfold(468);
    lemma_pow2_unfold(469);
    lemma_pow2_unfold(470);
    lemma_pow2_unfold(471);
    lemma_pow2_unfold(472);
    lemma_pow2_unfold(473);
    lemma_pow2_unfold(474);
    lemma_pow2_unfold(475);
    lemma_pow2_unfold(476);
    lemma_pow2_unfold(477);
    lemma_pow2_unfold(478);
    lemma_pow2_unfold(479);
}

/// A part of the powers of two, written out.
proof fn lemma_pow2_values_12()
    ensures
        pow2(480) == 0x1000000000000000000000000000000000000000000000000000000000000000000000000000000000000000000000000000000000000000000000000int,
        pow2(481) == 0x2000000000000000000000000000000000000000000000000000000000000000000000000000000000000000000000000000000000000000000000000int,
        pow2(482) == 0x4000000000000000000000000000000000000000000000000000000000000000000000000000000000000000000000000000000000000000000000000int,
        pow2(483) == 0x8000000000000000000000000000000000000000000000000000000000000000000000000000000000000000000000000000000000000000000000000int,
        pow2(484) == 0x10000000000000000000000000000000000000000000000000000000000000000000000000000000000000000000000000000000000000000000000000int,
        pow2(485) == 0x20000000000000000000000000000000000000000000000000000000000000000000000000000000000000000000000000000000000000000000000000int,
        pow2(486) == 0x40000000000000000000000000000000000000000000000000000000000000000000000000000000000000000000000000000000000000000000000000int,
        pow2(487) == 0x80000000000000000000000000000000000000000000000000000000000000000000000000000000000000000000000000000000000000000000000000int,
        pow2(488) == 0x100000000000000000000000000000000000000000000000000000000000000000000000000000000000000000000000000000000000000000000000000int,
        pow2(489) == 0x200000000000000000000000000000000000000000000000000000000000000000000000000000000000000000000000000000000000000000000000000int,
        pow2(490) == 0x400000000000000000000000000000000000000000000000000000000000000000000000000000000000000000000000000000000000000000000000000int,
        pow2(491) == 0x800000000000000000000000000000000000000000000000000000000000000000000000000000000000000000000000000000000000000000000000000int,
        pow2(492) == 0x1000000000000000000000000000000000000000000000000000000000000000000000000000000000000000000000000000000000000000000000000000int,
        pow2(493) == 0x2000000000000000000000000000000000000000000000000000000000000000000000000000000000000000000000000000000000000000000000000000int,
        pow2(494) == 0x4000000000000000000000000000000000000000000000000000000000000000000000000000000000000000000000000000000000000000000000000000int,
        pow2(495) == 0x8000000000000000000000000000000000000000000000000000000000000000000000000000000000000000000000000000000000000000000000000000int,
        pow2(496) == 0x10000000000000000000000000000000000000000000000000000000000000000000000000000000000000000000000000000000000000000000000000000int,
        pow2(497) == 0x20000000000000000000000000000000000000000000000000000000000000000000000000000000000000000000000000000000000000000000000000000int,
        pow2(498) == 0x40000000000000000000000000000000000000000000000000000000000000000000000000000000000000000000000000000000000000000000000000000int,
        pow2(499) == 0x80000000000000000000000000000000000000000000000000000000000000000000000000000000000000000000000000000000000000000000000000000int,
        pow2(500) == 0x100000000000000000000000000000000000000000000000000000000000000000000000000000000000000000000000000000000000000000000000000000int,
        pow2(501) == 0x200000000000000000000000000000000000000000000000000000000000000000000000000000000000000000000000000000000000000000000000000000int,
        pow2(502) == 0x400000000000000000000000000000000000000000000000000000000000000000000000000000000000000000000000000000000000000000000000000000int,
        pow2(503) == 0x800000000000000000000000000000000000000000000000000000000000000000000000000000000000000000000000000000000000000000000000000000int,
        pow2(504) == 0x1000000000000000000000000000000000000000000000000000000000000000000000000000000000000000000000000000000000000000000000000000000int,
        pow2(505) == 0x2000000000000000000000000000000000000000000000000000000000000000000000000000000000000000000000000000000000000000000000000000000int,
        pow2(506) == 0x4000000000000000000000000000000000000000000000000000000000000000000000000000000000000000000000000000000000000000000000000000000int,
        pow2(507) == 0x8000000000000000000000000000000000000000000000000000000000000000000000000000000000000000000000000000000000000000000000000000000int,
        pow2(508) == 0x10000000000000000000000000000000000000000000000000000000000000000000000000000000000000000000000000000000000000000000000000000000int,
        pow2(509) == 0x20000000000000000000000000000000000000000000000000000000000000000000000000000000000000000000000000000000000000000000000000000000int,
        pow2(510) == 0x40000000000000000000000000000000000000000000000000000000000000000000000000000000000000000000000000000000000000000000000000000000int,
        pow2(511) == 0x80000000000000000000000000000000000000000000000000000000000000000000000000000000000000000000000000000000000000000000000000000000int,
        pow2(512) == 0x100000000000000000000000000000000000000000000000000000000000000000000000000000000000000000000000000000000000000000000000000000000int,
        pow2(513) == 0x200000000000000000000000000000000000000000000000000000000000000000000000000000000000000000000000000000000000000000000000000000000int,
        pow2(514) == 0x400000000000000000000000000000000000000000000000000000000000000000000000000000000000000000000000000000000000000000000000000000000int,
        pow2(515) == 0x800000000000000000000000000000000000000000000000000000000000000000000000000000000000000000000000000000000000000000000000000000000int,
        pow2(516) == 0x1000000000000000000000000000000000000000000000000000000000000000000000000000000000000000000000000000000000000000000000000000000000int,
        pow2(517) == 0x2000000000000000000000000000000000000000000000000000000000000000000000000000000000000000000000000000000000000000000000000000000000int,
        pow2(518) == 0x4000000000000000000000000000000000000000000000000000000000000000000000000000000000000000000000000000000000000000000000000000000000int,
        pow2(519) == 0x8000000000000000000000000000000000000000000000000000000000000000000000000000000000000000000000000000000000000000000000000000000000int,
{
    lemma_pow2_values_11();
    lemma_pow2_unfold(480);
    lemma_pow2_unfold(481);
    lemma_pow2_unfold(482);
    lemma_pow2_unfold(483);
    lemma_pow2_unfold(484);
    lemma_pow2_unfold(485);
    lemma_pow2_unfold(486);
    lemma_pow2_unfold(487);
    lemma_pow2_unfold(488);
    lemma_pow2_unfold(489);
    lemma_pow2_unfold(490);
    lemma_pow2_unfold(491);
    lemma_pow2_unfold(492);
    lemma_pow2_unfold(493);
    lemma_pow2_unfold(494);
    lemma_pow2_unfold(495);
    lemma_pow2_unfold(496);
    lemma_pow2_unfold(497);
    lemma_pow2_unfold(498);
    lemma_pow2_unfold(499);
    lemma_pow2_unfold(500);
    lemma_pow2_unfold(501);
    lemma_pow2_unfold(502);
    lemma_pow2_unfold(503);
    lemma_pow2_unfold(504);
    lemma_pow2_unfold(505);
    lemma_pow2_unfold(506);
    lemma_pow2_unfold(507);
    lemma_pow2_unfold(508);
    lemma_pow2_unfold(509);
    lemma_pow2_unfold(510);
    lemma_pow2_unfold(511);
    lemma_pow2_unfold(512);
    lemma_pow2_unfold(513);
    lemma_pow2_unfold(514);
    lemma_pow2_unfold(515);
    lemma_pow2_unfold(516);
    lemma_pow2_unfold(517);
    lemma_pow2_unfold(518);
    lemma_pow2_unfold(519);
}

/// A part of the powers of two, written out.
proof fn lemma_pow2_values_13()
    ensures
        pow2(520) == 0x10000000000000000000000000000000000000000000000000000000000000000000000000000000000000000000000000000000000000000000000000000000000int,
        pow2(521) == 0x20000000000000000000000000000000000000000000000000000000000000000000000000000000000000000000000000000000000000000000000000000000000int,
        pow2(522) == 0x40000000000000000000000000000000000000000000000000000000000000000000000000000000000000000000000000000000000000000000000000000000000int,
        pow2(523) == 0x80000000000000000000000000000000000000000000000000000000000000000000000000000000000000000000000000000000000000000000000000000000000int,
        pow2(524) == 0x100000000000000000000000000000000000000000000000000000000000000000000000000000000000000000000000000000000000000000000000000000000000int,
        pow2(525) == 0x200000000000000000000000000000000000000000000000000000000000000000000000000000000000000000000000000000000000000000000000000000000000int,
        pow2(526) == 0x400000000000000000000000000000000000000000000000000000000000000000000000000000000000000000000000000000000000000000000000000000000000int,
        pow2(527) == 0x800000000000000000000000000000000000000000000000000000000000000000000000000000000000000000000000000000000000000000000000000000000000int,
        pow2(528) == 0x1000000000000000000000000000000000000000000000000000000000000000000000000000000000000000000000000000000000000000000000000000000000000int,
        pow2(529) == 0x2000000000000000000000000000000000000000000000000000000000000000000000000000000000000000000000000000000000000000000000000000000000000int,
        pow2(530) == 0x4000000000000000000000000000000000000000000000000000000000000000000000000000000000000000000000000000000000000000000000000000000000000int,
        pow2(531) == 0x8000000000000000000000000000000000000000000000000000000000000000000000000000000000000000000000000000000000000000000000000000000000000int,
        pow2(532) == 0x10000000000000000000000000000000000000000000000000000000000000000000000000000000000000000000000000000000000000000000000000000000000000int,
        pow2(533) == 0x20000000000000000000000000000000000000000000000000000000000000000000000000000000000000000000000000000000000000000000000000000000000000int,
        pow2(534) == 0x40000000000000000000000000000000000000000000000000000000000000000000000000000000000000000000000000000000000000000000000000000000000000int,
        pow2(535) == 0x80000000000000000000000000000000000000000000000000000000000000000000000000000000000000000000000000000000000000000000000000000000000000int,
        pow2(536) == 0x100000000000000000000000000000000000000000000000000000000000000000000000000000000000000000000000000000000000000000000000000000000000000int,
        pow2(537) == 0x200000000000000000000000000000000000000000000000000000000000000000000000000000000000000000000000000000000000000000000000000000000000000int,
        pow2(538) == 0x400000000000000000000000000000000000000000000000000000000000000000000000000000000000000000000000000000000000000000000000000000000000000int,
        pow2(539) == 0x800000000000000000000000000000000000000000000000000000000000000000000000000000000000000000000000000000000000000000000000000000000000000int,
        pow2(540) == 0x1000000000000000000000000000000000000000000000000000000000000000000000000000000000000000000000000000000000000000000000000000000000000000int,
        pow2(541) == 0x2000000000000000000000000000000000000000000000000000000000000000000000000000000000000000000000000000000000000000000000000000000000000000int,
        pow2(542) == 0x4000000000000000000000000000000000000000000000000000000000000000000000000000000000000000000000000000000000000000000000000000000000000000int,
        pow2(543) == 0x8000000000000000000000000000000000000000000000000000000000000000000000000000000000000000000000000000000000000000000000000000000000000000int,
        pow2(544) == 0x10000000000000000000000000000000000000000000000000000000000000000000000000000000000000000000000000000000000000000000000000000000000000000int,
        pow2(545) == 0x20000000000000000000000000000000000000000000000000000000000000000000000000000000000000000000000000000000000000000000000000000000000000000int,
        pow2(546) == 0x40000000000000000000000000000000000000000000000000000000000000000000000000000000000000000000000000000000000000000000000000000000000000000int,
        pow2(547) == 0x80000000000000000000000000000000000000000000000000000000000000000000000000000000000000000000000000000000000000000000000000000000000000000int,
        pow2(548) == 0x100000000000000000000000000000000000000000000000000000000000000000000000000000000000000000000000000000000000000000000000000000000000000000int,
        pow2(549) == 0x200000000000000000000000000000000000000000000000000000000000000000000000000000000000000000000000000000000000000000000000000000000000000000int,
        pow2(550) == 0x400000000000000000000000000000000000000000000000000000000000000000000000000000000000000000000000000000000000000000000000000000000000000000int,
        pow2(551) == 0x800000000000000000000000000000000000000000000000000000000000000000000000000000000000000000000000000000000000000000000000000000000000000000int,
        pow2(552) == 0x1000000000000000000000000000000000000000000000000000000000000000000000000000000000000000000000000000000000000000000000000000000000000000000int,
        pow2(553) == 0x2000000000000000000000000000000000000000000000000000000000000000000000000000000000000000000000000000000000000000000000000000000000000000000int,
        pow2(554) == 0x4000000000000000000000000000000000000000000000000000000000000000000000000000000000000000000000000000000000000000000000000000000000000000000int,
        pow2(555) == 0x8000000000000000000000000000000000000000000000000000000000000000000000000000000000000000000000000000000000000000000000000000000000000000000int,
        pow2(556) == 0x10000000000000000000000000000000000000000000000000000000000000000000000000000000000000000000000000000000000000000000000000000000000000000000int,
        pow2(557) == 0x20000000000000000000000000000000000000000000000000000000000000000000000000000000000000000000000000000000000000000000000000000000000000000000int,
        pow2(558) == 0x40000000000000000000000000000000000000000000000000000000000000000000000000000000000000000000000000000000000000000000000000000000000000000000int,
        pow2(559) == 0x80000000000000000000000000000000000000000000000000000000000000000000000000000000000000000000000000000000000000000000000000000000000000000000int,
{
    lemma_pow2_values_12();
    lemma_pow2_unfold(520);
    lemma_pow2_unfold(521);
    lemma_pow2_unfold(522);
    lemma_pow2_unfold(523);
    lemma_pow2_unfold(524);
    lemma_pow2_unfold(525);
    lemma_pow2_unfold(526);
    lemma_pow2_unfold(527);
    lemma_pow2_unfold(528);
    lemma_pow2_unfold(529);
    lemma_pow2_unfold(530);
    lemma_pow2_unfold(531);
    lemma_pow2_unfold(532);
    lemma_pow2_unfold(533);
    lemma_pow2_unfold(534);
    lemma_pow2_unfold(535);
    lemma_pow2_unfold(536);
    lemma_pow2_unfold(537);
    lemma_pow2_unfold(538);
    lemma_pow2_unfold(539);
    lemma_pow2_unfold(540);
    lemma_pow2_unfold(541);
    lemma_pow2_unfold(542);
    lemma_pow2_unfold(543);
    lemma_pow2_unfold(544);
    lemma_pow2_unfold(545);
    lemma_pow2_unfold(546);
    lemma_pow2_unfold(547);
    lemma_pow2_unfold(548);
    lemma_pow2_unfold(549);
    lemma_pow2_unfold(550);
    lemma_pow2_unfold(551);
    lemma_pow2_unfold(552);
    lemma_pow2_unfold(553);
    lemma_pow2_unfold(554);
    lemma_pow2_unfold(555);
    lemma_pow2_unfold(556);
    lemma_pow2_unfold(557);
    lemma_pow2_unfold(558);
    lemma_pow2_unfold(559);
}

/// A part of the powers of two, written out.
proof fn lemma_pow2_values_14()
    ensures
        pow2(560) == 0x100000000000000000000000000000000000000000000000000000000000000000000000000000000000000000000000000000000000000000000000000000000000000000000int,
        pow2(561) == 0x200000000000000000000000000000000000000000000000000000000000000000000000000000000000000000000000000000000000000000000000000000000000000000000int,
        pow2(562) == 0x400000000000000000000000000000000000000000000000000000000000000000000000000000000000000000000000000000000000000000000000000000000000000000000int,
        pow2(563) == 0x800000000000000000000000000000000000000000000000000000000000000000000000000000000000000000000000000000000000000000000000000000000000000000000int,
        pow2(564) == 0x1000000000000000000000000000000000000000000000000000000000000000000000000000000000000000000000000000000000000000000000000000000000000000000000int,
        pow2(565) == 0x2000000000000000000000000000000000000000000000000000000000000000000000000000000000000000000000000000000000000000000000000000000000000000000000int,
        pow2(566) == 0x4000000000000000000000000000000000000000000000000000000000000000000000000000000000000000000000000000000000000000000000000000000000000000000000int,
        pow2(567) == 0x8000000000000000000000000000000000000000000000000000000000000000000000000000000000000000000000000000000000000000000000000000000000000000000000int,
        pow2(568) == 0x10000000000000000000000000000000000000000000000000000000000000000000000000000000000000000000000000000000000000000000000000000000000000000000000int,
        pow2(569) == 0x20000000000000000000000000000000000000000000000000000000000000000000000000000000000000000000000000000000000000000000000000000000000000000000000int,
        pow2(570) == 0x40000000000000000000000000000000000000000000000000000000000000000000000000000000000000000000000000000000000000000000000000000000000000000000000int,
        pow2(571) == 0x80000000000000000000000000000000000000000000000000000000000000000000000000000000000000000000000000000000000000000000000000000000000000000000000int,
        pow2(572) == 0x100000000000000000000000000000000000000000000000000000000000000000000000000000000000000000000000000000000000000000000000000000000000000000000000int,
        pow2(573) == 0x200000000000000000000000000000000000000000000000000000000000000000000000000000000000000000000000000000000000000000000000000000000000000000000000int,
        pow2(574) == 0x400000000000000000000000000000000000000000000000000000000000000000000000000000000000000000000000000000000000000000000000000000000000000000000000int,
        pow2(575) == 0x800000000000000000000000000000000000000000000000000000000000000000000000000000000000000000000000000000000000000000000000000000000000000000000000int,
        pow2(576) == 0x1000000000000000000000000000000000000000000000000000000000000000000000000000000000000000000000000000000000000000000000000000000000000000000000000int,
        pow2(577) == 0x2000000000000000000000000000000000000000000000000000000000000000000000000000000000000000000000000000000000000000000000000000000000000000000000000int,
        pow2(578) == 0x4000000000000000000000000000000000000000000000000000000000000000000000000000000000000000000000000000000000000000000000000000000000000000000000000int,
        pow2(579) == 0x8000000000000000000000000000000000000000000000000000000000000000000000000000000000000000000000000000000000000000000000000000000000000000000000000int,
        pow2(580) == 0x10000000000000000000000000000000000000000000000000000000000000000000000000000000000000000000000000000000000000000000000000000000000000000000000000int,
        pow2(581) == 0x20000000000000000000000000000000000000000000000000000000000000000000000000000000000000000000000000000000000000000000000000000000000000000000000000int,
        pow2(582) == 0x40000000000000000000000000000000000000000000000000000000000000000000000000000000000000000000000000000000000000000000000000000000000000000000000000int,
        pow2(583) == 0x80000000000000000000000000000000000000000000000000000000000000000000000000000000000000000000000000000000000000000000000000000000000000000000000000int,
        pow2(584) == 0x100000000000000000000000000000000000000000000000000000000000000000000000000000000000000000000000000000000000000000000000000000000000000000000000000int,
        pow2(585) == 0x200000000000000000000000000000000000000000000000000000000000000000000000000000000000000000000000000000000000000000000000000000000000000000000000000int,
        pow2(586) == 0x400000000000000000000000000000000000000000000000000000000000000000000000000000000000000000000000000000000000000000000000000000000000000000000000000int,
        pow2(587) == 0x800000000000000000000000000000000000000000000000000000000000000000000000000000000000000000000000000000000000000000000000000000000000000000000000000int,
        pow2(588) == 0x1000000000000000000000000000000000000000000000000000000000000000000000000000000000000000000000000000000000000000000000000000000000000000000000000000int,
        pow2(589) == 0x2000000000000000000000000000000000000000000000000000000000000000000000000000000000000000000000000000000000000000000000000000000000000000000000000000int,
        pow2(590) == 0x4000000000000000000000000000000000000000000000000000000000000000000000000000000000000000000000000000000000000000000000000000000000000000000000000000int,
        pow2(591) == 0x8000000000000000000000000000000000000000000000000000000000000000000000000000000000000000000000000000000000000000000000000000000000000000000000000000int,
        pow2(592) == 0x10000000000000000000000000000000000000000000000000000000000000000000000000000000000000000000000000000000000000000000000000000000000000000000000000000int,
        pow2(593) == 0x20000000000000000000000000000000000000000000000000000000000000000000000000000000000000000000000000000000000000000000000000000000000000000000000000000int,
        pow2(594) == 0x40000000000000000000000000000000000000000000000000000000000000000000000000000000000000000000000000000000000000000000000000000000000000000000000000000int,
        pow2(595) == 0x80000000000000000000000000000000000000000000000000000000000000000000000000000000000000000000000000000000000000000000000000000000000000000000000000000int,
        pow2(596) == 0x100000000000000000000000000000000000000000000000000000000000000000000000000000000000000000000000000000000000000000000000000000000000000000000000000000int,
        pow2(597) == 0x200000000000000000000000000000000000000000000000000000000000000000000000000000000000000000000000000000000000000000000000000000000000000000000000000000int,
        pow2(598) == 0x400000000000000000000000000000000000000000000000000000000000000000000000000000000000000000000000000000000000000000000000000000000000000000000000000000int,
        pow2(599) == 0x800000000000000000000000000000000000000000000000000000000000000000000000000000000000000000000000000000000000000000000000000000000000000000000000000000int,
{
    lemma_pow2_values_13();
    lemma_pow2_unfold(560);
    lemma_pow2_unfold(561);
    lemma_pow2_unfold(562);
    lemma_pow2_unfold(563);
    lemma_pow2_unfold(564);
    lemma_pow2_unfold(565);
    lemma_pow2_unfold(566);
    lemma_pow2_unfold(567);
    lemma_pow2_unfold(568);
    lemma_pow2_unfold(569);
    lemma_pow2_unfold(570);
    lemma_pow2_unfold(571);
    lemma_pow2_unfold(572);
    lemma_pow2_unfold(573);
    lemma_pow2_unfold(574);
    lemma_pow2_unfold(575);
    lemma_pow2_unfold(576);
    lemma_pow2_unfold(577);
    lemma_pow2_unfold(578);
    lemma_pow2_unfold(579);
    lemma_pow2_unfold(580);
    lemma_pow2_unfold(581);
    lemma_pow2_unfold(582);
    lemma_pow2_unfold(583);
    lemma_pow2_unfold(584);
    lemma_pow2_unfold(585);
    lemma_pow2_unfold(586);
    lemma_pow2_unfold(587);
    lemma_pow2_unfold(588);
    lemma_pow2_unfold(589);
    lemma_pow2_unfold(590);
    lemma_pow2_unfold(591);
    lemma_pow2_unfold(592);
    lemma_pow2_unfold(593);
    lemma_pow2_unfold(594);
    lemma_pow2_unfold(595);
    lemma_pow2_unfold(596);
    lemma_pow2_unfold(597);
    lemma_pow2_unfold(598);
    lemma_pow2_unfold(599);
}

/// A part of the powers of two, written out.
proof fn lemma_pow2_values_15()
    ensures
        pow2(600) == 0x1000000000000000000000000000000000000000000000000000000000000000000000000000000000000000000000000000000000000000000000000000000000000000000000000000000int,
        pow2(601) == 0x2000000000000000000000000000000000000000000000000000000000000000000000000000000000000000000000000000000000000000000000000000000000000000000000000000000int,
        pow2(602) == 0x4000000000000000000000000000000000000000000000000000000000000000000000000000000000000000000000000000000000000000000000000000000000000000000000000000000int,
        pow2(603) == 0x8000000000000000000000000000000000000000000000000000000000000000000000000000000000000000000000000000000000000000000000000000000000000000000000000000000int,
        pow2(604) == 0x10000000000000000000000000000000000000000000000000000000000000000000000000000000000000000000000000000000000000000000000000000000000000000000000000000000int,
        pow2(605) == 0x20000000000000000000000000000000000000000000000000000000000000000000000000000000000000000000000000000000000000000000000000000000000000000000000000000000int,
        pow2(606) == 0x40000000000000000000000000000000000000000000000000000000000000000000000000000000000000000000000000000000000000000000000000000000000000000000000000000000int,
        pow2(607) == 0x80000000000000000000000000000000000000000000000000000000000000000000000000000000000000000000000000000000000000000000000000000000000000000000000000000000int,
        pow2(608) == 0x100000000000000000000000000000000000000000000000000000000000000000000000000000000000000000000000000000000000000000000000000000000000000000000000000000000int,
        pow2(609) == 0x200000000000000000000000000000000000000000000000000000000000000000000000000000000000000000000000000000000000000000000000000000000000000000000000000000000int,
        pow2(610) == 0x400000000000000000000000000000000000000000000000000000000000000000000000000000000000000000000000000000000000000000000000000000000000000000000000000000000int,
        pow2(611) == 0x800000000000000000000000000000000000000000000000000000000000000000000000000000000000000000000000000000000000000000000000000000000000000000000000000000000int,
        pow2(612) == 0x1000000000000000000000000000000000000000000000000000000000000000000000000000000000000000000000000000000000000000000000000000000000000000000000000000000000int,
        pow2(613) == 0x2000000000000000000000000000000000000000000000000000000000000000000000000000000000000000000000000000000000000000000000000000000000000000000000000000000000int,
        pow2(614) == 0x4000000000000000000000000000000000000000000000000000000000000000000000000000000000000000000000000000000000000000000000000000000000000000000000000000000000int,
        pow2(615) == 0x8000000000000000000000000000000000000000000000000000000000000000000000000000000000000000000000000000000000000000000000000000000000000000000000000000000000int,
        pow2(616) == 0x10000000000000000000000000000000000000000000000000000000000000000000000000000000000000000000000000000000000000000000000000000000000000000000000000000000000int,
        pow2(617) == 0x20000000000000000000000000000000000000000000000000000000000000000000000000000000000000000000000000000000000000000000000000000000000000000000000000000000000int,
        pow2(618) == 0x40000000000000000000000000000000000000000000000000000000000000000000000000000000000000000000000000000000000000000000000000000000000000000000000000000000000int,
        pow2(619) == 0x80000000000000000000000000000000000000000000000000000000000000000000000000000000000000000000000000000000000000000000000000000000000000000000000000000000000int,
        pow2(620) == 0x100000000000000000000000000000000000000000000000000000000000000000000000000000000000000000000000000000000000000000000000000000000000000000000000000000000000int,
        pow2(621) == 0x200000000000000000000000000000000000000000000000000000000000000000000000000000000000000000000000000000000000000000000000000000000000000000000000000000000000int,
        pow2(622) == 0x400000000000000000000000000000000000000000000000000000000000000000000000000000000000000000000000000000000000000000000000000000000000000000000000000000000000int,
        pow2(623) == 0x800000000000000000000000000000000000000000000000000000000000000000000000000000000000000000000000000000000000000000000000000000000000000000000000000000000000int,
        pow2(624) == 0x1000000000000000000000000000000000000000000000000000000000000000000000000000000000000000000000000000000000000000000000000000000000000000000000000000000000000int,
        pow2(625) == 0x2000000000000000000000000000000000000000000000000000000000000000000000000000000000000000000000000000000000000000000000000000000000000000000000000000000000000int,
        pow2(626) == 0x4000000000000000000000000000000000000000000000000000000000000000000000000000000000000000000000000000000000000000000000000000000000000000000000000000000000000int,
        pow2(627) == 0x8000000000000000000000000000000000000000000000000000000000000000000000000000000000000000000000000000000000000000000000000000000000000000000000000000000000000int,
        pow2(628) == 0x10000000000000000000000000000000000000000000000000000000000000000000000000000000000000000000000000000000000000000000000000000000000000000000000000000000000000int,
        pow2(629) == 0x20000000000000000000000000000000000000000000000000000000000000000000000000000000000000000000000000000000000000000000000000000000000000000000000000000000000000int,
        pow2(630) == 0x40000000000000000000000000000000000000000000000000000000000000000000000000000000000000000000000000000000000000000000000000000000000000000000000000000000000000int,
        pow2(631) == 0x80000000000000000000000000000000000000000000000000000000000000000000000000000000000000000000000000000000000000000000000000000000000000000000000000000000000000int,
        pow2(632) == 0x100000000000000000000000000000000000000000000000000000000000000000000000000000000000000000000000000000000000000000000000000000000000000000000000000000000000000int,
        pow2(633) == 0x200000000000000000000000000000000000000000000000000000000000000000000000000000000000000000000000000000000000000000000000000000000000000000000000000000000000000int,
        pow2(634) == 0x400000000000000000000000000000000000000000000000000000000000000000000000000000000000000000000000000000000000000000000000000000000000000000000000000000000000000int,
        pow2(635) == 0x800000000000000000000000000000000000000000000000000000000000000000000000000000000000000000000000000000000000000000000000000000000000000000000000000000000000000int,
        pow2(636) == 0x1000000000000000000000000000000000000000000000000000000000000000000000000000000000000000000000000000000000000000000000000000000000000000000000000000000000000000int,
        pow2(637) == 0x2000000000000000000000000000000000000000000000000000000000000000000000000000000000000000000000000000000000000000000000000000000000000000000000000000000000000000int,
        pow2(638) == 0x4000000000000000000000000000000000000000000000000000000000000000000000000000000000000000000000000000000000000000000000000000000000000000000000000000000000000000int,
        pow2(639) == 0x8000000000000000000000000000000000000000000000000000000000000000000000000000000000000000000000000000000000000000000000000000000000000000000000000000000000000000int,
{
    lemma_pow2_values_14();
    lemma_pow2_unfold(600);
    lemma_pow2_unfold(601);
    lemma_pow2_unfold(602);
    lemma_pow2_unfold(603);
    lemma_pow2_unfold(604);
    lemma_pow2_unfold(605);
    lemma_pow2_unfold(606);
    lemma_pow2_unfold(607);
    lemma_pow2_unfold(608);
    lemma_pow2_unfold(609);
    lemma_pow2_unfold(610);
    lemma_pow2_unfold(611);
    lemma_pow2_unfold(612);
    lemma_pow2_unfold(613);
    lemma_pow2_unfold(614);
    lemma_pow2_unfold(615);
    lemma_pow2_unfold(616);
    lemma_pow2_unfold(617);
    lemma_pow2_unfold(618);
    lemma_pow2_unfold(619);
    lemma_pow2_unfold(620);
    lemma_pow2_unfold(621);
    lemma_pow2_unfold(622);
    lemma_pow2_unfold(623);
    lemma_pow2_unfold(624);
    lemma_pow2_unfold(625);
    lemma_pow2_unfold(626);
    lemma_pow2_unfold(627);
    lemma_pow2_unfold(628);
    lemma_pow2_unfold(629);
    lemma_pow2_unfold(630);
    lemma_pow2_unfold(631);
    lemma_pow2_unfold(632);
    lemma_pow2_unfold(633);
    lemma_pow2_unfold(634);
    lemma_pow2_unfold(635);
    lemma_pow2_unfold(636);
    lemma_pow2_unfold(637);
    lemma_pow2_unfold(638);
    lemma_pow2_unfold(639);
}

/// A part of the powers of two, written out.
proof fn lemma_pow2_values_16()
    ensures
        pow2(640) == 0x10000000000000000000000000000000000000000000000000000000000000000000000000000000000000000000000000000000000000000000000000000000000000000000000000000000000000000int,
        pow2(641) == 0x20000000000000000000000000000000000000000000000000000000000000000000000000000000000000000000000000000000000000000000000000000000000000000000000000000000000000000int,
        pow2(642) == 0x40000000000000000000000000000000000000000000000000000000000000000000000000000000000000000000000000000000000000000000000000000000000000000000000000000000000000000int,
        pow2(643) == 0x80000000000000000000000000000000000000000000000000000000000000000000000000000000000000000000000000000000000000000000000000000000000000000000000000000000000000000int,
        pow2(644) == 0x100000000000000000000000000000000000000000000000000000000000000000000000000000000000000000000000000000000000000000000000000000000000000000000000000000000000000000int,
        pow2(645) == 0x200000000000000000000000000000000000000000000000000000000000000000000000000000000000000000000000000000000000000000000000000000000000000000000000000000000000000000int,
        pow2(646) == 0x400000000000000000000000000000000000000000000000000000000000000000000000000000000000000000000000000000000000000000000000000000000000000000000000000000000000000000int,
        pow2(647) == 0x800000000000000000000000000000000000000000000000000000000000000000000000000000000000000000000000000000000000000000000000000000000000000000000000000000000000000000int,
        pow2(648) == 0x1000000000000000000000000000000000000000000000000000000000000000000000000000000000000000000000000000000000000000000000000000000000000000000000000000000000000000000int,
        pow2(649) == 0x2000000000000000000000000000000000000000000000000000000000000000000000000000000000000000000000000000000000000000000000000000000000000000000000000000000000000000000int,
        pow2(650) == 0x4000000000000000000000000000000000000000000000000000000000000000000000000000000000000000000000000000000000000000000000000000000000000000000000000000000000000000000int,
        pow2(651) == 0x8000000000000000000000000000000000000000000000000000000000000000000000000000000000000000000000000000000000000000000000000000000000000000000000000000000000000000000int,
        pow2(652) == 0x10000000000000000000000000000000000000000000000000000000000000000000000000000000000000000000000000000000000000000000000000000000000000000000000000000000000000000000int,
        pow2(653) == 0x20000000000000000000000000000000000000000000000000000000000000000000000000000000000000000000000000000000000000000000000000000000000000000000000000000000000000000000int,
        pow2(654) == 0x40000000000000000000000000000000000000000000000000000000000000000000000000000000000000000000000000000000000000000000000000000000000000000000000000000000000000000000int,
        pow2(655) == 0x80000000000000000000000000000000000000000000000000000000000000000000000000000000000000000000000000000000000000000000000000000000000000000000000000000000000000000000int,
        pow2(656) == 0x100000000000000000000000000000000000000000000000000000000000000000000000000000000000000000000000000000000000000000000000000000000000000000000000000000000000000000000int,
        pow2(657) == 0x200000000000000000000000000000000000000000000000000000000000000000000000000000000000000000000000000000000000000000000000000000000000000000000000000000000000000000000int,
        pow2(658) == 0x400000000000000000000000000000000000000000000000000000000000000000000000000000000000000000000000000000000000000000000000000000000000000000000000000000000000000000000int,
        pow2(659) == 0x800000000000000000000000000000000000000000000000000000000000000000000000000000000000000000000000000000000000000000000000000000000000000000000000000000000000000000000int,
        pow2(660) == 0x1000000000000000000000000000000000000000000000000000000000000000000000000000000000000000000000000000000000000000000000000000000000000000000000000000000000000000000000int,
        pow2(661) == 0x2000000000000000000000000000000000000000000000000000000000000000000000000000000000000000000000000000000000000000000000000000000000000000000000000000000000000000000000int,
        pow2(662) == 0x4000000000000000000000000000000000000000000000000000000000000000000000000000000000000000000000000000000000000000000000000000000000000000000000000000000000000000000000int,
        pow2(663) == 0x8000000000000000000000000000000000000000000000000000000000000000000000000000000000000000000000000000000000000000000000000000000000000000000000000000000000000000000000int,
        pow2(664) == 0x10000000000000000000000000000000000000000000000000000000000000000000000000000000000000000000000000000000000000000000000000000000000000000000000000000000000000000000000int,
        pow2(665) == 0x20000000000000000000000000000000000000000000000000000000000000000000000000000000000000000000000000000000000000000000000000000000000000000000000000000000000000000000000int,
        pow2(666) == 0x40000000000000000000000000000000000000000000000000000000000000000000000000000000000000000000000000000000000000000000000000000000000000000000000000000000000000000000000int,
        pow2(667) == 0x80000000000000000000000000000000000000000000000000000000000000000000000000000000000000000000000000000000000000000000000000000000000000000000000000000000000000000000000int,
        pow2(668) == 0x100000000000000000000000000000000000000000000000000000000000000000000000000000000000000000000000000000000000000000000000000000000000000000000000000000000000000000000000int,
        pow2(669) == 0x200000000000000000000000000000000000000000000000000000000000000000000000000000000000000000000000000000000000000000000000000000000000000000000000000000000000000000000000int,
        pow2(670) == 0x400000000000000000000000000000000000000000000000000000000000000000000000000000000000000000000000000000000000000000000000000000000000000000000000000000000000000000000000int,
        pow2(671) == 0x800000000000000000000000000000000000000000000000000000000000000000000000000000000000000000000000000000000000000000000000000000000000000000000000000000000000000000000000int,
        pow2(672) == 0x1000000000000000000000000000000000000000000000000000000000000000000000000000000000000000000000000000000000000000000000000000000000000000000000000000000000000000000000000int,
        pow2(673) == 0x2000000000000000000000000000000000000000000000000000000000000000000000000000000000000000000000000000000000000000000000000000000000000000000000000000000000000000000000000int,
        pow2(674) == 0x4000000000000000000000000000000000000000000000000000000000000000000000000000000000000000000000000000000000000000000000000000000000000000000000000000000000000000000000000int,
        pow2(675) == 0x8000000000000000000000000000000000000000000000000000000000000000000000000000000000000000000000000000000000000000000000000000000000000000000000000000000000000000000000000int,
        pow2(676) == 0x10000000000000000000000000000000000000000000000000000000000000000000000000000000000000000000000000000000000000000000000000000000000000000000000000000000000000000000000000int,
        pow2(677) == 0x20000000000000000000000000000000000000000000000000000000000000000000000000000000000000000000000000000000000000000000000000000000000000000000000000000000000000000000000000int,
        pow2(678) == 0x40000000000000000000000000000000000000000000000000000000000000000000000000000000000000000000000000000000000000000000000000000000000000000000000000000000000000000000000000int,
        pow2(679) == 0x80000000000000000000000000000000000000000000000000000000000000000000000000000000000000000000000000000000000000000000000000000000000000000000000000000000000000000000000000int,
{
    lemma_pow2_values_15();
    lemma_pow2_unfold(640);
    lemma_pow2_unfold(641);
    lemma_pow2_unfold(642);
    lemma_pow2_unfold(643);
    lemma_pow2_unfold(644);
    lemma_pow2_unfold(645);
    lemma_pow2_unfold(646);
    lemma_pow2_unfold(647);
    lemma_pow2_unfold(648);
    lemma_pow2_unfold(649);
    lemma_pow2_unfold(650);
    lemma_pow2_unfold(651);
    lemma_pow2_unfold(652);
    lemma_pow2_unfold(653);
    lemma_pow2_unfold(654);
    lemma_pow2_unfold(655);
    lemma_pow2_unfold(656);
    lemma_pow2_unfold(657);
    lemma_pow2_unfold(658);
    lemma_pow2_unfold(659);
    lemma_pow2_unfold(660);
    lemma_pow2_unfold(661);
    lemma_pow2_unfold(662);
    lemma_pow2_unfold(663);
    lemma_pow2_unfold(664);
    lemma_pow2_unfold(665);
    lemma_pow2_unfold(666);
    lemma_pow2_unfold(667);
    lemma_pow2_unfold(668);
    lemma_pow2_unfold(669);
    lemma_pow2_unfold(670);
    lemma_pow2_unfold(671);
    lemma_pow2_unfold(672);
    lemma_pow2_unfold(673);
    lemma_pow2_unfold(674);
    lemma_pow2_unfold(675);
    lemma_pow2_unfold(676);
    lemma_pow2_unfold(677);
    lemma_pow2_unfold(678);
    lemma_pow2_unfold(679);
}

/// A part of the powers of two, written out.
proof fn lemma_pow2_values_17()
    ensures
        pow2(680) == 0x100000000000000000000000000000000000000000000000000000000000000000000000000000000000000000000000000000000000000000000000000000000000000000000000000000000000000000000000000int,
        pow2(681) == 0x200000000000000000000000000000000000000000000000000000000000000000000000000000000000000000000000000000000000000000000000000000000000000000000000000000000000000000000000000int,
        pow2(682) == 0x400000000000000000000000000000000000000000000000000000000000000000000000000000000000000000000000000000000000000000000000000000000000000000000000000000000000000000000000000int,
        pow2(683) == 0x800000000000000000000000000000000000000000000000000000000000000000000000000000000000000000000000000000000000000000000000000000000000000000000000000000000000000000000000000int,
        pow2(684) == 0x1000000000000000000000000000000000000000000000000000000000000000000000000000000000000000000000000000000000000000000000000000000000000000000000000000000000000000000000000000int,
        pow2(685) == 0x2000000000000000000000000000000000000000000000000000000000000000000000000000000000000000000000000000000000000000000000000000000000000000000000000000000000000000000000000000int,
        pow2(686) == 0x4000000000000000000000000000000000000000000000000000000000000000000000000000000000000000000000000000000000000000000000000000000000000000000000000000000000000000000000000000int,
        pow2(687) == 0x8000000000000000000000000000000000000000000000000000000000000000000000000000000000000000000000000000000000000000000000000000000000000000000000000000000000000000000000000000int,
        pow2(688) == 0x10000000000000000000000000000000000000000000000000000000000000000000000000000000000000000000000000000000000000000000000000000000000000000000000000000000000000000000000000000int,
        pow2(689) == 0x20000000000000000000000000000000000000000000000000000000000000000000000000000000000000000000000000000000000000000000000000000000000000000000000000000000000000000000000000000int,
        pow2(690) == 0x40000000000000000000000000000000000000000000000000000000000000000000000000000000000000000000000000000000000000000000000000000000000000000000000000000000000000000000000000000int,
        pow2(691) == 0x80000000000000000000000000000000000000000000000000000000000000000000000000000000000000000000000000000000000000000000000000000000000000000000000000000000000000000000000000000int,
        pow2(692) == 0x100000000000000000000000000000000000000000000000000000000000000000000000000000000000000000000000000000000000000000000000000000000000000000000000000000000000000000000000000000int,
        pow2(693) == 0x200000000000000000000000000000000000000000000000000000000000000000000000000000000000000000000000000000000000000000000000000000000000000000000000000000000000000000000000000000int,
        pow2(694) == 0x400000000000000000000000000000000000000000000000000000000000000000000000000000000000000000000000000000000000000000000000000000000000000000000000000000000000000000000000000000int,
        pow2(695) == 0x800000000000000000000000000000000000000000000000000000000000000000000000000000000000000000000000000000000000000000000000000000000000000000000000000000000000000000000000000000int,
        pow2(696) == 0x1000000000000000000000000000000000000000000000000000000000000000000000000000000000000000000000000000000000000000000000000000000000000000000000000000000000000000000000000000000int,
        pow2(697) == 0x2000000000000000000000000000000000000000000000000000000000000000000000000000000000000000000000000000000000000000000000000000000000000000000000000000000000000000000000000000000int,
        pow2(698) == 0x4000000000000000000000000000000000000000000000000000000000000000000000000000000000000000000000000000000000000000000000000000000000000000000000000000000000000000000000000000000int,
        pow2(699) == 0x8000000000000000000000000000000000000000000000000000000000000000000000000000000000000000000000000000000000000000000000000000000000000000000000000000000000000000000000000000000int,
        pow2(700) == 0x10000000000000000000000000000000000000000000000000000000000000000000000000000000000000000000000000000000000000000000000000000000000000000000000000000000000000000000000000000000int,
        pow2(701) == 0x20000000000000000000000000000000000000000000000000000000000000000000000000000000000000000000000000000000000000000000000000000000000000000000000000000000000000000000000000000000int,
        pow2(702) == 0x40000000000000000000000000000000000000000000000000000000000000000000000000000000000000000000000000000000000000000000000000000000000000000000000000000000000000000000000000000000int,
        pow2(703) == 0x80000000000000000000000000000000000000000000000000000000000000000000000000000000000000000000000000000000000000000000000000000000000000000000000000000000000000000000000000000000int,
        pow2(704) == 0x100000000000000000000000000000000000000000000000000000000000000000000000000000000000000000000000000000000000000000000000000000000000000000000000000000000000000000000000000000000int,
        pow2(705) == 0x200000000000000000000000000000000000000000000000000000000000000000000000000000000000000000000000000000000000000000000000000000000000000000000000000000000000000000000000000000000int,
        pow2(706) == 0x400000000000000000000000000000000000000000000000000000000000000000000000000000000000000000000000000000000000000000000000000000000000000000000000000000000000000000000000000000000int,
        pow2(707) == 0x800000000000000000000000000000000000000000000000000000000000000000000000000000000000000000000000000000000000000000000000000000000000000000000000000000000000000000000000000000000int,
        pow2(708) == 0x1000000000000000000000000000000000000000000000000000000000000000000000000000000000000000000000000000000000000000000000000000000000000000000000000000000000000000000000000000000000int,
        pow2(709) == 0x2000000000000000000000000000000000000000000000000000000000000000000000000000000000000000000000000000000000000000000000000000000000000000000000000000000000000000000000000000000000int,
        pow2(710) == 0x4000000000000000000000000000000000000000000000000000000000000000000000000000000000000000000000000000000000000000000000000000000000000000000000000000000000000000000000000000000000int,
        pow2(711) == 0x8000000000000000000000000000000000000000000000000000000000000000000000000000000000000000000000000000000000000000000000000000000000000000000000000000000000000000000000000000000000int,
        pow2(712) == 0x10000000000000000000000000000000000000000000000000000000000000000000000000000000000000000000000000000000000000000000000000000000000000000000000000000000000000000000000000000000000int,
        pow2(713) == 0x20000000000000000000000000000000000000000000000000000000000000000000000000000000000000000000000000000000000000000000000000000000000000000000000000000000000000000000000000000000000int,
        pow2(714) == 0x40000000000000000000000000000000000000000000000000000000000000000000000000000000000000000000000000000000000000000000000000000000000000000000000000000000000000000000000000000000000int,
        pow2(715) == 0x80000000000000000000000000000000000000000000000000000000000000000000000000000000000000000000000000000000000000000000000000000000000000000000000000000000000000000000000000000000000int,
        pow2(716) == 0x100000000000000000000000000000000000000000000000000000000000000000000000000000000000000000000000000000000000000000000000000000000000000000000000000000000000000000000000000000000000int,
        pow2(717) == 0x200000000000000000000000000000000000000000000000000000000000000000000000000000000000000000000000000000000000000000000000000000000000000000000000000000000000000000000000000000000000int,
        pow2(718) == 0x400000000000000000000000000000000000000000000000000000000000000000000000000000000000000000000000000000000000000000000000000000000000000000000000000000000000000000000000000000000000int,
        pow2(719) == 0x800000000000000000000000000000000000000000000000000000000000000000000000000000000000000000000000000000000000000000000000000000000000000000000000000000000000000000000000000000000000int,
{
    lemma_pow2_values_16();
    lemma_pow2_unfold(680);
    lemma_pow2_unfold(681);
    lemma_pow2_unfold(682);
    lemma_pow2_unfold(683);
    lemma_pow2_unfold(684);
    lemma_pow2_unfold(685);
    lemma_pow2_unfold(686);
    lemma_pow2_unfold(687);
    lemma_pow2_unfold(688);
    lemma_pow2_unfold(689);
    lemma_pow2_unfold(690);
    lemma_pow2_unfold(691);
    lemma_pow2_unfold(692);
    lemma_pow2_unfold(693);
    lemma_pow2_unfold(694);
    lemma_pow2_unfold(695);
    lemma_pow2_unfold(696);
    lemma_pow2_unfold(697);
    lemma_pow2_unfold(698);
    lemma_pow2_unfold(699);
    lemma_pow2_unfold(700);
    lemma_pow2_unfold(701);
    lemma_pow2_unfold(702);
    lemma_pow2_unfold(703);
    lemma_pow2_unfold(704);
    lemma_pow2_unfold(705);
    lemma_pow2_unfold(706);
    lemma_pow2_unfold(707);
    lemma_pow2_unfold(708);
    lemma_pow2_unfold(709);
    lemma_pow2_unfold(710);
    lemma_pow2_unfold(711);
    lemma_pow2_unfold(712);
    lemma_pow2_unfold(713);
    lemma_pow2_unfold(714);
    lemma_pow2_unfold(715);
    lemma_pow2_unfold(716);
    lemma_pow2_unfold(717);
    lemma_pow2_unfold(718);
    lemma_pow2_unfold(719);
}

/// A part of the powers of two, written out.
proof fn lemma_pow2_values_18()
    ensures
        pow2(720) == 0x1000000000000000000000000000000000000000000000000000000000000000000000000000000000000000000000000000000000000000000000000000000000000000000000000000000000000000000000000000000000000int,
        pow2(721) == 0x2000000000000000000000000000000000000000000000000000000000000000000000000000000000000000000000000000000000000000000000000000000000000000000000000000000000000000000000000000000000000int,
        pow2(722) == 0x4000000000000000000000000000000000000000000000000000000000000000000000000000000000000000000000000000000000000000000000000000000000000000000000000000000000000000000000000000000000000int,
        pow2(723) == 0x8000000000000000000000000000000000000000000000000000000000000000000000000000000000000000000000000000000000000000000000000000000000000000000000000000000000000000000000000000000000000int,
        pow2(724) == 0x10000000000000000000000000000000000000000000000000000000000000000000000000000000000000000000000000000000000000000000000000000000000000000000000000000000000000000000000000000000000000int,
        pow2(725) == 0x20000000000000000000000000000000000000000000000000000000000000000000000000000000000000000000000000000000000000000000000000000000000000000000000000000000000000000000000000000000000000int,
        pow2(726) == 0x40000000000000000000000000000000000000000000000000000000000000000000000000000000000000000000000000000000000000000000000000000000000000000000000000000000000000000000000000000000000000int,
        pow2(727) == 0x80000000000000000000000000000000000000000000000000000000000000000000000000000000000000000000000000000000000000000000000000000000000000000000000000000000000000000000000000000000000000int,
        pow2(728) == 0x100000000000000000000000000000000000000000000000000000000000000000000000000000000000000000000000000000000000000000000000000000000000000000000000000000000000000000000000000000000000000int,
        pow2(729) == 0x200000000000000000000000000000000000000000000000000000000000000000000000000000000000000000000000000000000000000000000000000000000000000000000000000000000000000000000000000000000000000int,
        pow2(730) == 0x400000000000000000000000000000000000000000000000000000000000000000000000000000000000000000000000000000000000000000000000000000000000000000000000000000000000000000000000000000000000000int,
        pow2(731) == 0x800000000000000000000000000000000000000000000000000000000000000000000000000000000000000000000000000000000000000000000000000000000000000000000000000000000000000000000000000000000000000int,
        pow2(732) == 0x1000000000000000000000000000000000000000000000000000000000000000000000000000000000000000000000000000000000000000000000000000000000000000000000000000000000000000000000000000000000000000int,
        pow2(733) == 0x2000000000000000000000000000000000000000000000000000000000000000000000000000000000000000000000000000000000000000000000000000000000000000000000000000000000000000000000000000000000000000int,
        pow2(734) == 0x4000000000000000000000000000000000000000000000000000000000000000000000000000000000000000000000000000000000000000000000000000000000000000000000000000000000000000000000000000000000000000int,
        pow2(735) == 0x8000000000000000000000000000000000000000000000000000000000000000000000000000000000000000000000000000000000000000000000000000000000000000000000000000000000000000000000000000000000000000int,
        pow2(736) == 0x10000000000000000000000000000000000000000000000000000000000000000000000000000000000000000000000000000000000000000000000000000000000000000000000000000000000000000000000000000000000000000int,
        pow2(737) == 0x20000000000000000000000000000000000000000000000000000000000000000000000000000000000000000000000000000000000000000000000000000000000000000000000000000000000000000000000000000000000000000int,
        pow2(738) == 0x40000000000000000000000000000000000000000000000000000000000000000000000000000000000000000000000000000000000000000000000000000000000000000000000000000000000000000000000000000000000000000int,
        pow2(739) == 0x80000000000000000000000000000000000000000000000000000000000000000000000000000000000000000000000000000000000000000000000000000000000000000000000000000000000000000000000000000000000000000int,
        pow2(740) == 0x100000000000000000000000000000000000000000000000000000000000000000000000000000000000000000000000000000000000000000000000000000000000000000000000000000000000000000000000000000000000000000int,
        pow2(741) == 0x200000000000000000000000000000000000000000000000000000000000000000000000000000000000000000000000000000000000000000000000000000000000000000000000000000000000000000000000000000000000000000int,
        pow2(742) == 0x400000000000000000000000000000000000000000000000000000000000000000000000000000000000000000000000000000000000000000000000000000000000000000000000000000000000000000000000000000000000000000int,
        pow2(743) == 0x800000000000000000000000000000000000000000000000000000000000000000000000000000000000000000000000000000000000000000000000000000000000000000000000000000000000000000000000000000000000000000int,
        pow2(744) == 0x1000000000000000000000000000000000000000000000000000000000000000000000000000000000000000000000000000000000000000000000000000000000000000000000000000000000000000000000000000000000000000000int,
        pow2(745) == 0x2000000000000000000000000000000000000000000000000000000000000000000000000000000000000000000000000000000000000000000000000000000000000000000000000000000000000000000000000000000000000000000int,
        pow2(746) == 0x4000000000000000000000000000000000000000000000000000000000000000000000000000000000000000000000000000000000000000000000000000000000000000000000000000000000000000000000000000000000000000000int,
        pow2(747) == 0x8000000000000000000000000000000000000000000000000000000000000000000000000000000000000000000000000000000000000000000000000000000000000000000000000000000000000000000000000000000000000000000int,
        pow2(748) == 0x10000000000000000000000000000000000000000000000000000000000000000000000000000000000000000000000000000000000000000000000000000000000000000000000000000000000000000000000000000000000000000000int,
        pow2(749) == 0x20000000000000000000000000000000000000000000000000000000000000000000000000000000000000000000000000000000000000000000000000000000000000000000000000000000000000000000000000000000000000000000int,
        pow2(750) == 0x40000000000000000000000000000000000000000000000000000000000000000000000000000000000000000000000000000000000000000000000000000000000000000000000000000000000000000000000000000000000000000000int,
        pow2(751) == 0x80000000000000000000000000000000000000000000000000000000000000000000000000000000000000000000000000000000000000000000000000000000000000000000000000000000000000000000000000000000000000000000int,
        pow2(752) == 0x100000000000000000000000000000000000000000000000000000000000000000000000000000000000000000000000000000000000000000000000000000000000000000000000000000000000000000000000000000000000000000000int,
        pow2(753) == 0x200000000000000000000000000000000000000000000000000000000000000000000000000000000000000000000000000000000000000000000000000000000000000000000000000000000000000000000000000000000000000000000int,
        pow2(754) == 0x400000000000000000000000000000000000000000000000000000000000000000000000000000000000000000000000000000000000000000000000000000000000000000000000000000000000000000000000000000000000000000000int,
        pow2(755) == 0x800000000000000000000000000000000000000000000000000000000000000000000000000000000000000000000000000000000000000000000000000000000000000000000000000000000000000000000000000000000000000000000int,
        pow2(756) == 0x1000000000000000000000000000000000000000000000000000000000000000000000000000000000000000000000000000000000000000000000000000000000000000000000000000000000000000000000000000000000000000000000int,
        pow2(757) == 0x2000000000000000000000000000000000000000000000000000000000000000000000000000000000000000000000000000000000000000000000000000000000000000000000000000000000000000000000000000000000000000000000int,
        pow2(758) == 0x4000000000000000000000000000000000000000000000000000000000000000000000000000000000000000000000000000000000000000000000000000000000000000000000000000000000000000000000000000000000000000000000int,
        pow2(759) == 0x8000000000000000000000000000000000000000000000000000000000000000000000000000000000000000000000000000000000000000000000000000000000000000000000000000000000000000000000000000000000000000000000int,
{
    lemma_pow2_values_17();
    lemma_pow2_unfold(720);
    lemma_pow2_unfold(721);
    lemma_pow2_unfold(722);
    lemma_pow2_unfold(723);
    lemma_pow2_unfold(724);
    lemma_pow2_unfold(725);
    lemma_pow2_unfold(726);
    lemma_pow2_unfold(727);
    lemma_pow2_unfold(728);
    lemma_pow2_unfold(729);
    lemma_pow2_unfold(730);
    lemma_pow2_unfold(731);
    lemma_pow2_unfold(732);
    lemma_pow2_unfold(733);
    lemma_pow2_unfold(734);
    lemma_pow2_unfold(735);
    lemma_pow2_unfold(736);
    lemma_pow2_unfold(737);
    lemma_pow2_unfold(738);
    lemma_pow2_unfold(739);
    lemma_pow2_unfold(740);
    lemma_pow2_unfold(741);
    lemma_pow2_unfold(742);
    lemma_pow2_unfold(743);
    lemma_pow2_unfold(744);
    lemma_pow2_unfold(745);
    lemma_pow2_unfold(746);
    lemma_pow2_unfold(747);
    lemma_pow2_unfold(748);
    lemma_pow2_unfold(749);
    lemma_pow2_unfold(750);
    lemma_pow2_unfold(751);
    lemma_pow2_unfold(752);
    lemma_pow2_unfold(753);
    lemma_pow2_unfold(754);
    lemma_pow2_unfold(755);
    lemma_pow2_unfold(756);
    lemma_pow2_unfold(757);
    lemma_pow2_unfold(758);
    lemma_pow2_unfold(759);
}

/// A part of the powers of two, written out.
proof fn lemma_pow2_values_19()
    ensures
        pow2(760) == 0x10000000000000000000000000000000000000000000000000000000000000000000000000000000000000000000000000000000000000000000000000000000000000000000000000000000000000000000000000000000000000000000000int,
        pow2(761) == 0x20000000000000000000000000000000000000000000000000000000000000000000000000000000000000000000000000000000000000000000000000000000000000000000000000000000000000000000000000000000000000000000000int,
        pow2(762) == 0x40000000000000000000000000000000000000000000000000000000000000000000000000000000000000000000000000000000000000000000000000000000000000000000000000000000000000000000000000000000000000000000000int,
        pow2(763) == 0x80000000000000000000000000000000000000000000000000000000000000000000000000000000000000000000000000000000000000000000000000000000000000000000000000000000000000000000000000000000000000000000000int,
        pow2(764) == 0x100000000000000000000000000000000000000000000000000000000000000000000000000000000000000000000000000000000000000000000000000000000000000000000000000000000000000000000000000000000000000000000000int,
        pow2(765) == 0x200000000000000000000000000000000000000000000000000000000000000000000000000000000000000000000000000000000000000000000000000000000000000000000000000000000000000000000000000000000000000000000000int,
        pow2(766) == 0x400000000000000000000000000000000000000000000000000000000000000000000000000000000000000000000000000000000000000000000000000000000000000000000000000000000000000000000000000000000000000000000000int,
        pow2(767) == 0x800000000000000000000000000000000000000000000000000000000000000000000000000000000000000000000000000000000000000000000000000000000000000000000000000000000000000000000000000000000000000000000000int,
        pow2(768) == 0x1000000000000000000000000000000000000000000000000000000000000000000000000000000000000000000000000000000000000000000000000000000000000000000000000000000000000000000000000000000000000000000000000int,
        pow2(769) == 0x2000000000000000000000000000000000000000000000000000000000000000000000000000000000000000000000000000000000000000000000000000000000000000000000000000000000000000000000000000000000000000000000000int,
        pow2(770) == 0x4000000000000000000000000000000000000000000000000000000000000000000000000000000000000000000000000000000000000000000000000000000000000000000000000000000000000000000000000000000000000000000000000int,
        pow2(771) == 0x8000000000000000000000000000000000000000000000000000000000000000000000000000000000000000000000000000000000000000000000000000000000000000000000000000000000000000000000000000000000000000000000000int,
        pow2(772) == 0x10000000000000000000000000000000000000000000000000000000000000000000000000000000000000000000000000000000000000000000000000000000000000000000000000000000000000000000000000000000000000000000000000int,
        pow2(773) == 0x20000000000000000000000000000000000000000000000000000000000000000000000000000000000000000000000000000000000000000000000000000000000000000000000000000000000000000000000000000000000000000000000000int,
        pow2(774) == 0x40000000000000000000000000000000000000000000000000000000000000000000000000000000000000000000000000000000000000000000000000000000000000000000000000000000000000000000000000000000000000000000000000int,
        pow2(775) == 0x80000000000000000000000000000000000000000000000000000000000000000000000000000000000000000000000000000000000000000000000000000000000000000000000000000000000000000000000000000000000000000000000000int,
        pow2(776) == 0x100000000000000000000000000000000000000000000000000000000000000000000000000000000000000000000000000000000000000000000000000000000000000000000000000000000000000000000000000000000000000000000000000int,
        pow2(777) == 0x200000000000000000000000000000000000000000000000000000000000000000000000000000000000000000000000000000000000000000000000000000000000000000000000000000000000000000000000000000000000000000000000000int,
        pow2(778) == 0x400000000000000000000000000000000000000000000000000000000000000000000000000000000000000000000000000000000000000000000000000000000000000000000000000000000000000000000000000000000000000000000000000int,
        pow2(779) == 0x800000000000000000000000000000000000000000000000000000000000000000000000000000000000000000000000000000000000000000000000000000000000000000000000000000000000000000000000000000000000000000000000000int,
        pow2(780) == 0x1000000000000000000000000000000000000000000000000000000000000000000000000000000000000000000000000000000000000000000000000000000000000000000000000000000000000000000000000000000000000000000000000000int,
        pow2(781) == 0x2000000000000000000000000000000000000000000000000000000000000000000000000000000000000000000000000000000000000000000000000000000000000000000000000000000000000000000000000000000000000000000000000000int,
        pow2(782) == 0x4000000000000000000000000000000000000000000000000000000000000000000000000000000000000000000000000000000000000000000000000000000000000000000000000000000000000000000000000000000000000000000000000000int,
        pow2(783) == 0x8000000000000000000000000000000000000000000000000000000000000000000000000000000000000000000000000000000000000000000000000000000000000000000000000000000000000000000000000000000000000000000000000000int,
        pow2(784) == 0x10000000000000000000000000000000000000000000000000000000000000000000000000000000000000000000000000000000000000000000000000000000000000000000000000000000000000000000000000000000000000000000000000000int,
        pow2(785) == 0x20000000000000000000000000000000000000000000000000000000000000000000000000000000000000000000000000000000000000000000000000000000000000000000000000000000000000000000000000000000000000000000000000000int,
        pow2(786) == 0x40000000000000000000000000000000000000000000000000000000000000000000000000000000000000000000000000000000000000000000000000000000000000000000000000000000000000000000000000000000000000000000000000000int,
        pow2(787) == 0x80000000000000000000000000000000000000000000000000000000000000000000000000000000000000000000000000000000000000000000000000000000000000000000000000000000000000000000000000000000000000000000000000000int,
        pow2(788) == 0x100000000000000000000000000000000000000000000000000000000000000000000000000000000000000000000000000000000000000000000000000000000000000000000000000000000000000000000000000000000000000000000000000000int,
        pow2(789) == 0x200000000000000000000000000000000000000000000000000000000000000000000000000000000000000000000000000000000000000000000000000000000000000000000000000000000000000000000000000000000000000000000000000000int,
        pow2(790) == 0x400000000000000000000000000000000000000000000000000000000000000000000000000000000000000000000000000000000000000000000000000000000000000000000000000000000000000000000000000000000000000000000000000000int,
        pow2(791) == 0x800000000000000000000000000000000000000000000000000000000000000000000000000000000000000000000000000000000000000000000000000000000000000000000000000000000000000000000000000000000000000000000000000000int,
        pow2(792) == 0x1000000000000000000000000000000000000000000000000000000000000000000000000000000000000000000000000000000000000000000000000000000000000000000000000000000000000000000000000000000000000000000000000000000int,
        pow2(793) == 0x2000000000000000000000000000000000000000000000000000000000000000000000000000000000000000000000000000000000000000000000000000000000000000000000000000000000000000000000000000000000000000000000000000000int,
        pow2(794) == 0x4000000000000000000000000000000000000000000000000000000000000000000000000000000000000000000000000000000000000000000000000000000000000000000000000000000000000000000000000000000000000000000000000000000int,
        pow2(795) == 0x8000000000000000000000000000000000000000000000000000000000000000000000000000000000000000000000000000000000000000000000000000000000000000000000000000000000000000000000000000000000000000000000000000000int,
        pow2(796) == 0x10000000000000000000000000000000000000000000000000000000000000000000000000000000000000000000000000000000000000000000000000000000000000000000000000000000000000000000000000000000000000000000000000000000int,
        pow2(797) == 0x20000000000000000000000000000000000000000000000000000000000000000000000000000000000000000000000000000000000000000000000000000000000000000000000000000000000000000000000000000000000000000000000000000000int,
        pow2(798) == 0x40000000000000000000000000000000000000000000000000000000000000000000000000000000000000000000000000000000000000000000000000000000000000000000000000000000000000000000000000000000000000000000000000000000int,
        pow2(799) == 0x80000000000000000000000000000000000000000000000000000000000000000000000000000000000000000000000000000000000000000000000000000000000000000000000000000000000000000000000000000000000000000000000000000000int,
{
    lemma_pow2_values_18();
    lemma_pow2_unfold(760);
    lemma_pow2_unfold(761);
    lemma_pow2_unfold(762);
    lemma_pow2_unfold(763);
    lemma_pow2_unfold(764);
    lemma_pow2_unfold(765);
    lemma_pow2_unfold(766);
    lemma_pow2_unfold(767);
    lemma_pow2_unfold(768);
    lemma_pow2_unfold(769);
    lemma_pow2_unfold(770);
    lemma_pow2_unfold(771);
    lemma_pow2_unfold(772);
    lemma_pow2_unfold(773);
    lemma_pow2_unfold(774);
    lemma_pow2_unfold(775);
    lemma_pow2_unfold(776);
    lemma_pow2_unfold(777);
    lemma_pow2_unfold(778);
    lemma_pow2_unfold(779);
    lemma_pow2_unfold(780);
    lemma_pow2_unfold(781);
    lemma_pow2_unfold(782);
    lemma_pow2_unfold(783);
    lemma_pow2_unfold(784);
    lemma_pow2_unfold(785);
    lemma_pow2_unfold(786);
    lemma_pow2_unfold(787);
    lemma_pow2_unfold(788);
    lemma_pow2_unfold(789);
    lemma_pow2_unfold(790);
    lemma_pow2_unfold(791);
    lemma_pow2_unfold(792);
    lemma_pow2_unfold(793);
    lemma_pow2_unfold(794);
    lemma_pow2_unfold(795);
    lemma_pow2_unfold(796);
    lemma_pow2_unfold(797);
    lemma_pow2_unfold(798);
    lemma_pow2_unfold(799);
}

/// A part of the powers of two, written out.
proof fn lemma_pow2_values_20()
    ensures
        pow2(800) == 0x100000000000000000000000000000000000000000000000000000000000000000000000000000000000000000000000000000000000000000000000000000000000000000000000000000000000000000000000000000000000000000000000000000000int,
        pow2(801) == 0x200000000000000000000000000000000000000000000000000000000000000000000000000000000000000000000000000000000000000000000000000000000000000000000000000000000000000000000000000000000000000000000000000000000int,
        pow2(802) == 0x400000000000000000000000000000000000000000000000000000000000000000000000000000000000000000000000000000000000000000000000000000000000000000000000000000000000000000000000000000000000000000000000000000000int,
        pow2(803) == 0x800000000000000000000000000000000000000000000000000000000000000000000000000000000000000000000000000000000000000000000000000000000000000000000000000000000000000000000000000000000000000000000000000000000int,
        pow2(804) == 0x1000000000000000000000000000000000000000000000000000000000000000000000000000000000000000000000000000000000000000000000000000000000000000000000000000000000000000000000000000000000000000000000000000000000int,
        pow2(805) == 0x2000000000000000000000000000000000000000000000000000000000000000000000000000000000000000000000000000000000000000000000000000000000000000000000000000000000000000000000000000000000000000000000000000000000int,
        pow2(806) == 0x4000000000000000000000000000000000000000000000000000000000000000000000000000000000000000000000000000000000000000000000000000000000000000000000000000000000000000000000000000000000000000000000000000000000int,
        pow2(807) == 0x8000000000000000000000000000000000000000000000000000000000000000000000000000000000000000000000000000000000000000000000000000000000000000000000000000000000000000000000000000000000000000000000000000000000int,
        pow2(808) == 0x10000000000000000000000000000000000000000000000000000000000000000000000000000000000000000000000000000000000000000000000000000000000000000000000000000000000000000000000000000000000000000000000000000000000int,
        pow2(809) == 0x20000000000000000000000000000000000000000000000000000000000000000000000000000000000000000000000000000000000000000000000000000000000000000000000000000000000000000000000000000000000000000000000000000000000int,
        pow2(810) == 0x40000000000000000000000000000000000000000000000000000000000000000000000000000000000000000000000000000000000000000000000000000000000000000000000000000000000000000000000000000000000000000000000000000000000int,
        pow2(811) == 0x80000000000000000000000000000000000000000000000000000000000000000000000000000000000000000000000000000000000000000000000000000000000000000000000000000000000000000000000000000000000000000000000000000000000int,
        pow2(812) == 0x100000000000000000000000000000000000000000000000000000000000000000000000000000000000000000000000000000000000000000000000000000000000000000000000000000000000000000000000000000000000000000000000000000000000int,
        pow2(813) == 0x200000000000000000000000000000000000000000000000000000000000000000000000000000000000000000000000000000000000000000000000000000000000000000000000000000000000000000000000000000000000000000000000000000000000int,
        pow2(814) == 0x400000000000000000000000000000000000000000000000000000000000000000000000000000000000000000000000000000000000000000000000000000000000000000000000000000000000000000000000000000000000000000000000000000000000int,
        pow2(815) == 0x800000000000000000000000000000000000000000000000000000000000000000000000000000000000000000000000000000000000000000000000000000000000000000000000000000000000000000000000000000000000000000000000000000000000int,
        pow2(816) == 0x1000000000000000000000000000000000000000000000000000000000000000000000000000000000000000000000000000000000000000000000000000000000000000000000000000000000000000000000000000000000000000000000000000000000000int,
        pow2(817) == 0x2000000000000000000000000000000000000000000000000000000000000000000000000000000000000000000000000000000000000000000000000000000000000000000000000000000000000000000000000000000000000000000000000000000000000int,
        pow2(818) == 0x4000000000000000000000000000000000000000000000000000000000000000000000000000000000000000000000000000000000000000000000000000000000000000000000000000000000000000000000000000000000000000000000000000000000000int,
        pow2(819) == 0x8000000000000000000000000000000000000000000000000000000000000000000000000000000000000000000000000000000000000000000000000000000000000000000000000000000000000000000000000000000000000000000000000000000000000int,
        pow2(820) == 0x10000000000000000000000000000000000000000000000000000000000000000000000000000000000000000000000000000000000000000000000000000000000000000000000000000000000000000000000000000000000000000000000000000000000000int,
        pow2(821) == 0x20000000000000000000000000000000000000000000000000000000000000000000000000000000000000000000000000000000000000000000000000000000000000000000000000000000000000000000000000000000000000000000000000000000000000int,
        pow2(822) == 0x40000000000000000000000000000000000000000000000000000000000000000000000000000000000000000000000000000000000000000000000000000000000000000000000000000000000000000000000000000000000000000000000000000000000000int,
        pow2(823) == 0x80000000000000000000000000000000000000000000000000000000000000000000000000000000000000000000000000000000000000000000000000000000000000000000000000000000000000000000000000000000000000000000000000000000000000int,
        pow2(824) == 0x100000000000000000000000000000000000000000000000000000000000000000000000000000000000000000000000000000000000000000000000000000000000000000000000000000000000000000000000000000000000000000000000000000000000000int,
        pow2(825) == 0x200000000000000000000000000000000000000000000000000000000000000000000000000000000000000000000000000000000000000000000000000000000000000000000000000000000000000000000000000000000000000000000000000000000000000int,
        pow2(826) == 0x400000000000000000000000000000000000000000000000000000000000000000000000000000000000000000000000000000000000000000000000000000000000000000000000000000000000000000000000000000000000000000000000000000000000000int,
        pow2(827) == 0x800000000000000000000000000000000000000000000000000000000000000000000000000000000000000000000000000000000000000000000000000000000000000000000000000000000000000000000000000000000000000000000000000000000000000int,
        pow2(828) == 0x1000000000000000000000000000000000000000000000000000000000000000000000000000000000000000000000000000000000000000000000000000000000000000000000000000000000000000000000000000000000000000000000000000000000000000int,
        pow2(829) == 0x2000000000000000000000000000000000000000000000000000000000000000000000000000000000000000000000000000000000000000000000000000000000000000000000000000000000000000000000000000000000000000000000000000000000000000int,
        pow2(830) == 0x4000000000000000000000000000000000000000000000000000000000000000000000000000000000000000000000000000000000000000000000000000000000000000000000000000000000000000000000000000000000000000000000000000000000000000int,
        pow2(831) == 0x8000000000000000000000000000000000000000000000000000000000000000000000000000000000000000000000000000000000000000000000000000000000000000000000000000000000000000000000000000000000000000000000000000000000000000int,
        pow2(832) == 0x10000000000000000000000000000000000000000000000000000000000000000000000000000000000000000000000000000000000000000000000000000000000000000000000000000000000000000000000000000000000000000000000000000000000000000int,
        pow2(833) == 0x20000000000000000000000000000000000000000000000000000000000000000000000000000000000000000000000000000000000000000000000000000000000000000000000000000000000000000000000000000000000000000000000000000000000000000int,
        pow2(834) == 0x40000000000000000000000000000000000000000000000000000000000000000000000000000000000000000000000000000000000000000000000000000000000000000000000000000000000000000000000000000000000000000000000000000000000000000int,
        pow2(835) == 0x80000000000000000000000000000000000000000000000000000000000000000000000000000000000000000000000000000000000000000000000000000000000000000000000000000000000000000000000000000000000000000000000000000000000000000int,
        pow2(836) == 0x100000000000000000000000000000000000000000000000000000000000000000000000000000000000000000000000000000000000000000000000000000000000000000000000000000000000000000000000000000000000000000000000000000000000000000int,
        pow2(837) == 0x200000000000000000000000000000000000000000000000000000000000000000000000000000000000000000000000000000000000000000000000000000000000000000000000000000000000000000000000000000000000000000000000000000000000000000int,
        pow2(838) == 0x400000000000000000000000000000000000000000000000000000000000000000000000000000000000000000000000000000000000000000000000000000000000000000000000000000000000000000000000000000000000000000000000000000000000000000int,
        pow2(839) == 0x800000000000000000000000000000000000000000000000000000000000000000000000000000000000000000000000000000000000000000000000000000000000000000000000000000000000000000000000000000000000000000000000000000000000000000int,
{
    lemma_pow2_values_19();
    lemma_pow2_unfold(800);
    lemma_pow2_unfold(801);
    lemma_pow2_unfold(802);
    lemma_pow2_unfold(803);
    lemma_pow2_unfold(804);
    lemma_pow2_unfold(805);
    lemma_pow2_unfold(806);
    lemma_pow2_unfold(807);
    lemma_pow2_unfold(808);
    lemma_pow2_unfold(809);
    lemma_pow2_unfold(810);
    lemma_pow2_unfold(811);
    lemma_pow2_unfold(812);
    lemma_pow2_unfold(813);
    lemma_pow2_unfold(814);
    lemma_pow2_unfold(815);
    lemma_pow2_unfold(816);
    lemma_pow2_unfold(817);
    lemma_pow2_unfold(818);
    lemma_pow2_unfold(819);
    lemma_pow2_unfold(820);
    lemma_pow2_unfold(821);
    lemma_pow2_unfold(822);
    lemma_pow2_unfold(823);
    lemma_pow2_unfold(824);
    lemma_pow2_unfold(825);
    lemma_pow2_unfold(826);
    lemma_pow2_unfold(827);
    lemma_pow2_unfold(828);
    lemma_pow2_unfold(829);
    lemma_pow2_unfold(830);
    lemma_pow2_unfold(831);
    lemma_pow2_unfold(832);
    lemma_pow2_unfold(833);
    lemma_pow2_unfold(834);
    lemma_pow2_unfold(835);
    lemma_pow2_unfold(836);
    lemma_pow2_unfold(837);
    lemma_pow2_unfold(838);
    lemma_pow2_unfold(839);
}

/// A part of the powers of two, written out.
proof fn lemma_pow2_values_21()
    ensures
        pow2(840) == 0x1000000000000000000000000000000000000000000000000000000000000000000000000000000000000000000000000000000000000000000000000000000000000000000000000000000000000000000000000000000000000000000000000000000000000000000int,
        pow2(841) == 0x2000000000000000000000000000000000000000000000000000000000000000000000000000000000000000000000000000000000000000000000000000000000000000000000000000000000000000000000000000000000000000000000000000000000000000000int,
        pow2(842) == 0x4000000000000000000000000000000000000000000000000000000000000000000000000000000000000000000000000000000000000000000000000000000000000000000000000000000000000000000000000000000000000000000000000000000000000000000int,
        pow2(843) == 0x8000000000000000000000000000000000000000000000000000000000000000000000000000000000000000000000000000000000000000000000000000000000000000000000000000000000000000000000000000000000000000000000000000000000000000000int,
        pow2(844) == 0x10000000000000000000000000000000000000000000000000000000000000000000000000000000000000000000000000000000000000000000000000000000000000000000000000000000000000000000000000000000000000000000000000000000000000000000int,
        pow2(845) == 0x20000000000000000000000000000000000000000000000000000000000000000000000000000000000000000000000000000000000000000000000000000000000000000000000000000000000000000000000000000000000000000000000000000000000000000000int,
        pow2(846) == 0x40000000000000000000000000000000000000000000000000000000000000000000000000000000000000000000000000000000000000000000000000000000000000000000000000000000000000000000000000000000000000000000000000000000000000000000int,
        pow2(847) == 0x80000000000000000000000000000000000000000000000000000000000000000000000000000000000000000000000000000000000000000000000000000000000000000000000000000000000000000000000000000000000000000000000000000000000000000000int,
        pow2(848) == 0x100000000000000000000000000000000000000000000000000000000000000000000000000000000000000000000000000000000000000000000000000000000000000000000000000000000000000000000000000000000000000000000000000000000000000000000int,
        pow2(849) == 0x200000000000000000000000000000000000000000000000000000000000000000000000000000000000000000000000000000000000000000000000000000000000000000000000000000000000000000000000000000000000000000000000000000000000000000000int,
        pow2(850) == 0x400000000000000000000000000000000000000000000000000000000000000000000000000000000000000000000000000000000000000000000000000000000000000000000000000000000000000000000000000000000000000000000000000000000000000000000int,
        pow2(851) == 0x800000000000000000000000000000000000000000000000000000000000000000000000000000000000000000000000000000000000000000000000000000000000000000000000000000000000000000000000000000000000000000000000000000000000000000000int,
        pow2(852) == 0x1000000000000000000000000000000000000000000000000000000000000000000000000000000000000000000000000000000000000000000000000000000000000000000000000000000000000000000000000000000000000000000000000000000000000000000000int,
        pow2(853) == 0x2000000000000000000000000000000000000000000000000000000000000000000000000000000000000000000000000000000000000000000000000000000000000000000000000000000000000000000000000000000000000000000000000000000000000000000000int,
        pow2(854) == 0x4000000000000000000000000000000000000000000000000000000000000000000000000000000000000000000000000000000000000000000000000000000000000000000000000000000000000000000000000000000000000000000000000000000000000000000000int,
        pow2(855) == 0x8000000000000000000000000000000000000000000000000000000000000000000000000000000000000000000000000000000000000000000000000000000000000000000000000000000000000000000000000000000000000000000000000000000000000000000000int,
        pow2(856) == 0x10000000000000000000000000000000000000000000000000000000000000000000000000000000000000000000000000000000000000000000000000000000000000000000000000000000000000000000000000000000000000000000000000000000000000000000000int,
        pow2(857) == 0x20000000000000000000000000000000000000000000000000000000000000000000000000000000000000000000000000000000000000000000000000000000000000000000000000000000000000000000000000000000000000000000000000000000000000000000000int,
        pow2(858) == 0x40000000000000000000000000000000000000000000000000000000000000000000000000000000000000000000000000000000000000000000000000000000000000000000000000000000000000000000000000000000000000000000000000000000000000000000000int,
        pow2(859) == 0x80000000000000000000000000000000000000000000000000000000000000000000000000000000000000000000000000000000000000000000000000000000000000000000000000000000000000000000000000000000000000000000000000000000000000000000000int,
        pow2(860) == 0x100000000000000000000000000000000000000000000000000000000000000000000000000000000000000000000000000000000000000000000000000000000000000000000000000000000000000000000000000000000000000000000000000000000000000000000000int,
        pow2(861) == 0x200000000000000000000000000000000000000000000000000000000000000000000000000000000000000000000000000000000000000000000000000000000000000000000000000000000000000000000000000000000000000000000000000000000000000000000000int,
        pow2(862) == 0x400000000000000000000000000000000000000000000000000000000000000000000000000000000000000000000000000000000000000000000000000000000000000000000000000000000000000000000000000000000000000000000000000000000000000000000000int,
        pow2(863) == 0x800000000000000000000000000000000000000000000000000000000000000000000000000000000000000000000000000000000000000000000000000000000000000000000000000000000000000000000000000000000000000000000000000000000000000000000000int,
        pow2(864) == 0x1000000000000000000000000000000000000000000000000000000000000000000000000000000000000000000000000000000000000000000000000000000000000000000000000000000000000000000000000000000000000000000000000000000000000000000000000int,
        pow2(865) == 0x2000000000000000000000000000000000000000000000000000000000000000000000000000000000000000000000000000000000000000000000000000000000000000000000000000000000000000000000000000000000000000000000000000000000000000000000000int,
        pow2(866) == 0x4000000000000000000000000000000000000000000000000000000000000000000000000000000000000000000000000000000000000000000000000000000000000000000000000000000000000000000000000000000000000000000000000000000000000000000000000int,
        pow2(867) == 0x8000000000000000000000000000000000000000000000000000000000000000000000000000000000000000000000000000000000000000000000000000000000000000000000000000000000000000000000000000000000000000000000000000000000000000000000000int,
        pow2(868) == 0x10000000000000000000000000000000000000000000000000000000000000000000000000000000000000000000000000000000000000000000000000000000000000000000000000000000000000000000000000000000000000000000000000000000000000000000000000int,
        pow2(869) == 0x20000000000000000000000000000000000000000000000000000000000000000000000000000000000000000000000000000000000000000000000000000000000000000000000000000000000000000000000000000000000000000000000000000000000000000000000000int,
        pow2(870) == 0x40000000000000000000000000000000000000000000000000000000000000000000000000000000000000000000000000000000000000000000000000000000000000000000000000000000000000000000000000000000000000000000000000000000000000000000000000int,
        pow2(871) == 0x80000000000000000000000000000000000000000000000000000000000000000000000000000000000000000000000000000000000000000000000000000000000000000000000000000000000000000000000000000000000000000000000000000000000000000000000000int,
        pow2(872) == 0x100000000000000000000000000000000000000000000000000000000000000000000000000000000000000000000000000000000000000000000000000000000000000000000000000000000000000000000000000000000000000000000000000000000000000000000000000int,
        pow2(873) == 0x200000000000000000000000000000000000000000000000000000000000000000000000000000000000000000000000000000000000000000000000000000000000000000000000000000000000000000000000000000000000000000000000000000000000000000000000000int,
        pow2(874) == 0x400000000000000000000000000000000000000000000000000000000000000000000000000000000000000000000000000000000000000000000000000000000000000000000000000000000000000000000000000000000000000000000000000000000000000000000000000int,
        pow2(875) == 0x800000000000000000000000000000000000000000000000000000000000000000000000000000000000000000000000000000000000000000000000000000000000000000000000000000000000000000000000000000000000000000000000000000000000000000000000000int,
        pow2(876) == 0x1000000000000000000000000000000000000000000000000000000000000000000000000000000000000000000000000000000000000000000000000000000000000000000000000000000000000000000000000000000000000000000000000000000000000000000000000000int,
        pow2(877) == 0x2000000000000000000000000000000000000000000000000000000000000000000000000000000000000000000000000000000000000000000000000000000000000000000000000000000000000000000000000000000000000000000000000000000000000000000000000000int,
        pow2(878) == 0x4000000000000000000000000000000000000000000000000000000000000000000000000000000000000000000000000000000000000000000000000000000000000000000000000000000000000000000000000000000000000000000000000000000000000000000000000000int,
        pow2(879) == 0x8000000000000000000000000000000000000000000000000000000000000000000000000000000000000000000000000000000000000000000000000000000000000000000000000000000000000000000000000000000000000000000000000000000000000000000000000000int,
{
    lemma_pow2_values_20();
    lemma_pow2_unfold(840);
    lemma_pow2_unfold(841);
    lemma_pow2_unfold(842);
    lemma_pow2_unfold(843);
    lemma_pow2_unfold(844);
    lemma_pow2_unfold(845);
    lemma_pow2_unfold(846);
    lemma_pow2_unfold(847);
    lemma_pow2_unfold(848);
    lemma_pow2_unfold(849);
    lemma_pow2_unfold(850);
    lemma_pow2_unfold(851);
    lemma_pow2_unfold(852);
    lemma_pow2_unfold(853);
    lemma_pow2_unfold(854);
    lemma_pow2_unfold(855);
    lemma_pow2_unfold(856);
    lemma_pow2_unfold(857);
    lemma_pow2_unfold(858);
    lemma_pow2_unfold(859);
    lemma_pow2_unfold(860);
    lemma_pow2_unfold(861);
    lemma_pow2_unfold(862);
    lemma_pow2_unfold(863);
    lemma_pow2_unfold(864);
    lemma_pow2_unfold(865);
    lemma_pow2_unfold(866);
    lemma_pow2_unfold(867);
    lemma_pow2_unfold(868);
    lemma_pow2_unfold(869);
    lemma_pow2_unfold(870);
    lemma_pow2_unfold(871);
    lemma_pow2_unfold(872);
    lemma_pow2_unfold(873);
    lemma_pow2_unfold(874);
    lemma_pow2_unfold(875);
    lemma_pow2_unfold(876);
    lemma_pow2_unfold(877);
    lemma_pow2_unfold(878);
    lemma_pow2_unfold(879);
}

/// A part of the powers of two, written out.
proof fn lemma_pow2_values_22()
    ensures
        pow2(880) == 0x10000000000000000000000000000000000000000000000000000000000000000000000000000000000000000000000000000000000000000000000000000000000000000000000000000000000000000000000000000000000000000000000000000000000000000000000000000int,
        pow2(881) == 0x20000000000000000000000000000000000000000000000000000000000000000000000000000000000000000000000000000000000000000000000000000000000000000000000000000000000000000000000000000000000000000000000000000000000000000000000000000int,
        pow2(882) == 0x40000000000000000000000000000000000000000000000000000000000000000000000000000000000000000000000000000000000000000000000000000000000000000000000000000000000000000000000000000000000000000000000000000000000000000000000000000int,
        pow2(883) == 0x80000000000000000000000000000000000000000000000000000000000000000000000000000000000000000000000000000000000000000000000000000000000000000000000000000000000000000000000000000000000000000000000000000000000000000000000000000int,
        pow2(884) == 0x100000000000000000000000000000000000000000000000000000000000000000000000000000000000000000000000000000000000000000000000000000000000000000000000000000000000000000000000000000000000000000000000000000000000000000000000000000int,
        pow2(885) == 0x200000000000000000000000000000000000000000000000000000000000000000000000000000000000000000000000000000000000000000000000000000000000000000000000000000000000000000000000000000000000000000000000000000000000000000000000000000int,
        pow2(886) == 0x400000000000000000000000000000000000000000000000000000000000000000000000000000000000000000000000000000000000000000000000000000000000000000000000000000000000000000000000000000000000000000000000000000000000000000000000000000int,
        pow2(887) == 0x800000000000000000000000000000000000000000000000000000000000000000000000000000000000000000000000000000000000000000000000000000000000000000000000000000000000000000000000000000000000000000000000000000000000000000000000000000int,
        pow2(888) == 0x1000000000000000000000000000000000000000000000000000000000000000000000000000000000000000000000000000000000000000000000000000000000000000000000000000000000000000000000000000000000000000000000000000000000000000000000000000000int,
        pow2(889) == 0x2000000000000000000000000000000000000000000000000000000000000000000000000000000000000000000000000000000000000000000000000000000000000000000000000000000000000000000000000000000000000000000000000000000000000000000000000000000int,
        pow2(890) == 0x4000000000000000000000000000000000000000000000000000000000000000000000000000000000000000000000000000000000000000000000000000000000000000000000000000000000000000000000000000000000000000000000000000000000000000000000000000000int,
        pow2(891) == 0x8000000000000000000000000000000000000000000000000000000000000000000000000000000000000000000000000000000000000000000000000000000000000000000000000000000000000000000000000000000000000000000000000000000000000000000000000000000int,
        pow2(892) == 0x10000000000000000000000000000000000000000000000000000000000000000000000000000000000000000000000000000000000000000000000000000000000000000000000000000000000000000000000000000000000000000000000000000000000000000000000000000000int,
        pow2(893) == 0x20000000000000000000000000000000000000000000000000000000000000000000000000000000000000000000000000000000000000000000000000000000000000000000000000000000000000000000000000000000000000000000000000000000000000000000000000000000int,
        pow2(894) == 0x40000000000000000000000000000000000000000000000000000000000000000000000000000000000000000000000000000000000000000000000000000000000000000000000000000000000000000000000000000000000000000000000000000000000000000000000000000000int,
        pow2(895) == 0x80000000000000000000000000000000000000000000000000000000000000000000000000000000000000000000000000000000000000000000000000000000000000000000000000000000000000000000000000000000000000000000000000000000000000000000000000000000int,
        pow2(896) == 0x100000000000000000000000000000000000000000000000000000000000000000000000000000000000000000000000000000000000000000000000000000000000000000000000000000000000000000000000000000000000000000000000000000000000000000000000000000000int,
        pow2(897) == 0x200000000000000000000000000000000000000000000000000000000000000000000000000000000000000000000000000000000000000000000000000000000000000000000000000000000000000000000000000000000000000000000000000000000000000000000000000000000int,
        pow2(898) == 0x400000000000000000000000000000000000000000000000000000000000000000000000000000000000000000000000000000000000000000000000000000000000000000000000000000000000000000000000000000000000000000000000000000000000000000000000000000000int,
        pow2(899) == 0x800000000000000000000000000000000000000000000000000000000000000000000000000000000000000000000000000000000000000000000000000000000000000000000000000000000000000000000000000000000000000000000000000000000000000000000000000000000int,
        pow2(900) == 0x1000000000000000000000000000000000000000000000000000000000000000000000000000000000000000000000000000000000000000000000000000000000000000000000000000000000000000000000000000000000000000000000000000000000000000000000000000000000int,
        pow2(901) == 0x2000000000000000000000000000000000000000000000000000000000000000000000000000000000000000000000000000000000000000000000000000000000000000000000000000000000000000000000000000000000000000000000000000000000000000000000000000000000int,
        pow2(902) == 0x4000000000000000000000000000000000000000000000000000000000000000000000000000000000000000000000000000000000000000000000000000000000000000000000000000000000000000000000000000000000000000000000000000000000000000000000000000000000int,
        pow2(903) == 0x8000000000000000000000000000000000000000000000000000000000000000000000000000000000000000000000000000000000000000000000000000000000000000000000000000000000000000000000000000000000000000000000000000000000000000000000000000000000int,
        pow2(904) == 0x10000000000000000000000000000000000000000000000000000000000000000000000000000000000000000000000000000000000000000000000000000000000000000000000000000000000000000000000000000000000000000000000000000000000000000000000000000000000int,
        pow2(905) == 0x20000000000000000000000000000000000000000000000000000000000000000000000000000000000000000000000000000000000000000000000000000000000000000000000000000000000000000000000000000000000000000000000000000000000000000000000000000000000int,
        pow2(906) == 0x40000000000000000000000000000000000000000000000000000000000000000000000000000000000000000000000000000000000000000000000000000000000000000000000000000000000000000000000000000000000000000000000000000000000000000000000000000000000int,
        pow2(907) == 0x80000000000000000000000000000000000000000000000000000000000000000000000000000000000000000000000000000000000000000000000000000000000000000000000000000000000000000000000000000000000000000000000000000000000000000000000000000000000int,
        pow2(908) == 0x100000000000000000000000000000000000000000000000000000000000000000000000000000000000000000000000000000000000000000000000000000000000000000000000000000000000000000000000000000000000000000000000000000000000000000000000000000000000int,
        pow2(909) == 0x200000000000000000000000000000000000000000000000000000000000000000000000000000000000000000000000000000000000000000000000000000000000000000000000000000000000000000000000000000000000000000000000000000000000000000000000000000000000int,
        pow2(910) == 0x400000000000000000000000000000000000000000000000000000000000000000000000000000000000000000000000000000000000000000000000000000000000000000000000000000000000000000000000000000000000000000000000000000000000000000000000000000000000int,
        pow2(911) == 0x800000000000000000000000000000000000000000000000000000000000000000000000000000000000000000000000000000000000000000000000000000000000000000000000000000000000000000000000000000000000000000000000000000000000000000000000000000000000int,
        pow2(912) == 0x1000000000000000000000000000000000000000000000000000000000000000000000000000000000000000000000000000000000000000000000000000000000000000000000000000000000000000000000000000000000000000000000000000000000000000000000000000000000000int,
        pow2(913) == 0x2000000000000000000000000000000000000000000000000000000000000000000000000000000000000000000000000000000000000000000000000000000000000000000000000000000000000000000000000000000000000000000000000000000000000000000000000000000000000int,
        pow2(914) == 0x4000000000000000000000000000000000000000000000000000000000000000000000000000000000000000000000000000000000000000000000000000000000000000000000000000000000000000000000000000000000000000000000000000000000000000000000000000000000000int,
        pow2(915) == 0x8000000000000000000000000000000000000000000000000000000000000000000000000000000000000000000000000000000000000000000000000000000000000000000000000000000000000000000000000000000000000000000000000000000000000000000000000000000000000int,
        pow2(916) == 0x10000000000000000000000000000000000000000000000000000000000000000000000000000000000000000000000000000000000000000000000000000000000000000000000000000000000000000000000000000000000000000000000000000000000000000000000000000000000000int,
        pow2(917) == 0x20000000000000000000000000000000000000000000000000000000000000000000000000000000000000000000000000000000000000000000000000000000000000000000000000000000000000000000000000000000000000000000000000000000000000000000000000000000000000int,
        pow2(918) == 0x40000000000000000000000000000000000000000000000000000000000000000000000000000000000000000000000000000000000000000000000000000000000000000000000000000000000000000000000000000000000000000000000000000000000000000000000000000000000000int,
        pow2(919) == 0x80000000000000000000000000000000000000000000000000000000000000000000000000000000000000000000000000000000000000000000000000000000000000000000000000000000000000000000000000000000000000000000000000000000000000000000000000000000000000int,
{
    lemma_pow2_values_21();
    lemma_pow2_unfold(880);
    lemma_pow2_unfold(881);
    lemma_pow2_unfold(882);
    lemma_pow2_unfold(883);
    lemma_pow2_unfold(884);
    lemma_pow2_unfold(885);
    lemma_pow2_unfold(886);
    lemma_pow2_unfold(887);
    lemma_pow2_unfold(888);
    lemma_pow2_unfold(889);
    lemma_pow2_unfold(890);
    lemma_pow2_unfold(891);
    lemma_pow2_unfold(892);
    lemma_pow2_unfold(893);
    lemma_pow2_unfold(894);
    lemma_pow2_unfold(895);
    lemma_pow2_unfold(896);
    lemma_pow2_unfold(897);
    lemma_pow2_unfold(898);
    lemma_pow2_unfold(899);
    lemma_pow2_unfold(900);
    lemma_pow2_unfold(901);
    lemma_pow2_unfold(902);
    lemma_pow2_unfold(903);
    lemma_pow2_unfold(904);
    lemma_pow2_unfold(905);
    lemma_pow2_unfold(906);
    lemma_pow2_unfold(907);
    lemma_pow2_unfold(908);
    lemma_pow2_unfold(909);
    lemma_pow2_unfold(910);
    lemma_pow2_unfold(911);
    lemma_pow2_unfold(912);
    lemma_pow2_unfold(913);
    lemma_pow2_unfold(914);
    lemma_pow2_unfold(915);
    lemma_pow2_unfold(916);
    lemma_pow2_unfold(917);
    lemma_pow2_unfold(918);
    lemma_pow2_unfold(919);
}

/// A part of the powers of two, written out.
proof fn lemma_pow2_values_23()
    ensures
        pow2(920) == 0x100000000000000000000000000000000000000000000000000000000000000000000000000000000000000000000000000000000000000000000000000000000000000000000000000000000000000000000000000000000000000000000000000000000000000000000000000000000000000int,
        pow2(921) == 0x200000000000000000000000000000000000000000000000000000000000000000000000000000000000000000000000000000000000000000000000000000000000000000000000000000000000000000000000000000000000000000000000000000000000000000000000000000000000000int,
        pow2(922) == 0x400000000000000000000000000000000000000000000000000000000000000000000000000000000000000000000000000000000000000000000000000000000000000000000000000000000000000000000000000000000000000000000000000000000000000000000000000000000000000int,
{
    lemma_pow2_values_22();
    lemma_pow2_unfold(920);
    lemma_pow2_unfold(921);
    lemma_pow2_unfold(922);
}

/// A part of the entries of the table, each held against its power of five.
proof fn lemma_entries_0(q: int)
    requires
        -342 <= q <= -313,
    ensures
        approximates(q),
{
    lemma_pow5_values_7();
    lemma_pow5_values_8();
    lemma_pow2_values_3();
    lemma_pow2_values_21();
    lemma_pow2_values_22();
    lemma_pow2_values_23();
    if q == -342 {
        assert(entry_value(-342) == 0xeef453d6923bd65a113faa2906a13b3fint);
        assert(table_exponent(-342) == 922);
        assert(0xeef453d6923bd65a113faa2906a13b3fint * 111619862429909666232010112139193453071475585431913931759289633127698499600267401921430470884782424770428032651696682444552787242410538940539652567715824340035694728259383326270357015595991408805237078694094776665224344469606876373291015625int < 0x400000000000000000000000000000000000000000000000000000000000000000000000000000000000000000000000000000000000000000000000000000000000000000000000000000000000000000000000000000000000000000000000000000000000000000000000000000000000000int && 0x400000000000000000000000000000000000000000000000000000000000000000000000000000000000000000000000000000000000000000000000000000000000000000000000000000000000000000000000000000000000000000000000000000000000000000000000000000000000000int < 0xeef453d6923bd65a113faa2906a13b40int * 111619862429909666232010112139193453071475585431913931759289633127698499600267401921430470884782424770428032651696682444552787242410538940539652567715824340035694728259383326270357015595991408805237078694094776665224344469606876373291015625int);
    } else if q == -341 {
        assert(entry_value(-341) == 0x9558b4661b6565f84ac7ca59a424c507int);
        assert(table_exponent(-341) == 919);
        assert(0x9558b4661b6565f84ac7ca59a424c507int * 22323972485981933246402022427838690614295117086382786351857926625539699920053480384286094176956484954085606530339336488910557448482107788107930513543164868007138945651876665254071403119198281761047415738818955333044868893921375274658203125int < 0x80000000000000000000000000000000000000000000000000000000000000000000000000000000000000000000000000000000000000000000000000000000000000000000000000000000000000000000000000000000000000000000000000000000000000000000000000000000000000int && 0x80000000000000000000000000000000000000000000000000000000000000000000000000000000000000000000000000000000000000000000000000000000000000000000000000000000000000000000000000000000000000000000000000000000000000000000000000000000000000int < 0x9558b4661b6565f84ac7ca59a424c508int * 22323972485981933246402022427838690614295117086382786351857926625539699920053480384286094176956484954085606530339336488910557448482107788107930513543164868007138945651876665254071403119198281761047415738818955333044868893921375274658203125int);
    } else if q == -340 {
        assert(entry_value(-340) == 0xbaaee17fa23ebf765d79bcf00d2df649int);
        assert(table_exponent(-340) == 917);
        assert(0xbaaee17fa23ebf765d79bcf00d2df649int * 4464794497196386649280404485567738122859023417276557270371585325107939984010696076857218835391296990817121306067867297782111489696421557621586102708632973601427789130375333050814280623839656352209483147763791066608973778784275054931640625int < 0x20000000000000000000000000000000000000000000000000000000000000000000000000000000000000000000000000000000000000000000000000000000000000000000000000000000000000000000000000000000000000000000000000000000000000000000000000000000000000int && 0x20000000000000000000000000000000000000000000000000000000000000000000000000000000000000000000000000000000000000000000000000000000000000000000000000000000000000000000000000000000000000000000000000000000000000000000000000000000000000int < 0xbaaee17fa23ebf765d79bcf00d2df64aint * 4464794497196386649280404485567738122859023417276557270371585325107939984010696076857218835391296990817121306067867297782111489696421557621586102708632973601427789130375333050814280623839656352209483147763791066608973778784275054931640625int);
    } else if q == -339 {
        assert(entry_value(-339) == 0xe95a99df8ace6f53f4d82c2c107973dcint);
        assert(table_exponent(-339) == 915);
        assert(0xe95a99df8ace6f53f4d82c2c107973dcint * 892958899439277329856080897113547624571804683455311454074317065021587996802139215371443767078259398163424261213573459556422297939284311524317220541726594720285557826075066610162856124767931270441896629552758213321794755756855010986328125int < 0x8000000000000000000000000000000000000000000000000000000000000000000000000000000000000000000000000000000000000000000000000000000000000000000000000000000000000000000000000000000000000000000000000000000000000000000000000000000000000int && 0x8000000000000000000000000000000000000000000000000000000000000000000000000000000000000000000000000000000000000000000000000000000000000000000000000000000000000000000000000000000000000000000000000000000000000000000000000000000000000int < 0xe95a99df8ace6f53f4d82c2c107973ddint * 892958899439277329856080897113547624571804683455311454074317065021587996802139215371443767078259398163424261213573459556422297939284311524317220541726594720285557826075066610162856124767931270441896629552758213321794755756855010986328125int);
    } else if q == -338 {
        assert(entry_value(-338) == 0x91d8a02bb6c1059479071b9b8a4be869int);
        assert(table_exponent(-338) == 912);
        assert(0x91d8a02bb6c1059479071b9b8a4be869int * 178591779887855465971216179422709524914360936691062290814863413004317599360427843074288753415651879632684852242714691911284459587856862304863444108345318944057111565215013322032571224953586254088379325910551642664358951151371002197265625int < 0x1000000000000000000000000000000000000000000000000000000000000000000000000000000000000000000000000000000000000000000000000000000000000000000000000000000000000000000000000000000000000000000000000000000000000000000000000000000000000int && 0x1000000000000000000000000000000000000000000000000000000000000000000000000000000000000000000000000000000000000000000000000000000000000000000000000000000000000000000000000000000000000000000000000000000000000000000000000000000000000int < 0x91d8a02bb6c1059479071b9b8a4be86aint * 178591779887855465971216179422709524914360936691062290814863413004317599360427843074288753415651879632684852242714691911284459587856862304863444108345318944057111565215013322032571224953586254088379325910551642664358951151371002197265625int);
    } else if q == -337 {
        assert(entry_value(-337) == 0xb64ec836a47146f99748e2826cdee284int);
        assert(table_exponent(-337) == 910);
        assert(0xb64ec836a47146f99748e2826cdee284int * 35718355977571093194243235884541904982872187338212458162972682600863519872085568614857750683130375926536970448542938382256891917571372460972688821669063788811422313043002664406514244990717250817675865182110328532871790230274200439453125int < 0x400000000000000000000000000000000000000000000000000000000000000000000000000000000000000000000000000000000000000000000000000000000000000000000000000000000000000000000000000000000000000000000000000000000000000000000000000000000000int && 0x400000000000000000000000000000000000000000000000000000000000000000000000000000000000000000000000000000000000000000000000000000000000000000000000000000000000000000000000000000000000000000000000000000000000000000000000000000000000int < 0xb64ec836a47146f99748e2826cdee285int * 35718355977571093194243235884541904982872187338212458162972682600863519872085568614857750683130375926536970448542938382256891917571372460972688821669063788811422313043002664406514244990717250817675865182110328532871790230274200439453125int);
    } else if q == -336 {
        assert(entry_value(-336) == 0xe3e27a444d8d98b7fd1b1b2308169b25int);
        assert(table_exponent(-336) == 908);
        assert(0xe3e27a444d8d98b7fd1b1b2308169b25int * 7143671195514218638848647176908380996574437467642491632594536520172703974417113722971550136626075185307394089708587676451378383514274492194537764333812757762284462608600532881302848998143450163535173036422065706574358046054840087890625int < 0x100000000000000000000000000000000000000000000000000000000000000000000000000000000000000000000000000000000000000000000000000000000000000000000000000000000000000000000000000000000000000000000000000000000000000000000000000000000000int && 0x100000000000000000000000000000000000000000000000000000000000000000000000000000000000000000000000000000000000000000000000000000000000000000000000000000000000000000000000000000000000000000000000000000000000000000000000000000000000int < 0xe3e27a444d8d98b7fd1b1b2308169b26int * 7143671195514218638848647176908380996574437467642491632594536520172703974417113722971550136626075185307394089708587676451378383514274492194537764333812757762284462608600532881302848998143450163535173036422065706574358046054840087890625int);
    } else if q == -335 {
        assert(entry_value(-335) == 0x8e6d8c6ab0787f72fe30f0f5e50e20f7int);
        assert(table_exponent(-335) == 905);
        assert(0x8e6d8c6ab0787f72fe30f0f5e50e20f7int * 1428734239102843727769729435381676199314887493528498326518907304034540794883422744594310027325215037061478817941717535290275676702854898438907552866762551552456892521720106576260569799628690032707034607284413141314871609210968017578125int < 0x20000000000000000000000000000000000000000000000000000000000000000000000000000000000000000000000000000000000000000000000000000000000000000000000000000000000000000000000000000000000000000000000000000000000000000000000000000000000int && 0x20000000000000000000000000000000000000000000000000000000000000000000000000000000000000000000000000000000000000000000000000000000000000000000000000000000000000000000000000000000000000000000000000000000000000000000000000000000000int < 0x8e6d8c6ab0787f72fe30f0f5e50e20f8int * 1428734239102843727769729435381676199314887493528498326518907304034540794883422744594310027325215037061478817941717535290275676702854898438907552866762551552456892521720106576260569799628690032707034607284413141314871609210968017578125int);
    } else if q == -334 {
        assert(entry_value(-334) == 0xb208ef855c969f4fbdbd2d335e51a935int);
        assert(table_exponent(-334) == 903);
        assert(0xb208ef855c969f4fbdbd2d335e51a935int * 285746847820568745553945887076335239862977498705699665303781460806908158976684548918862005465043007412295763588343507058055135340570979687781510573352510310491378504344021315252113959925738006541406921456882628262974321842193603515625int < 0x8000000000000000000000000000000000000000000000000000000000000000000000000000000000000000000000000000000000000000000000000000000000000000000000000000000000000000000000000000000000000000000000000000000000000000000000000000000000int && 0x8000000000000000000000000000000000000000000000000000000000000000000000000000000000000000000000000000000000000000000000000000000000000000000000000000000000000000000000000000000000000000000000000000000000000000000000000000000000int < 0xb208ef855c969f4fbdbd2d335e51a936int * 285746847820568745553945887076335239862977498705699665303781460806908158976684548918862005465043007412295763588343507058055135340570979687781510573352510310491378504344021315252113959925738006541406921456882628262974321842193603515625int);
    } else if q == -333 {
        assert(entry_value(-333) == 0xde8b2b66b3bc4723ad2c788035e61382int);
        assert(table_exponent(-333) == 901);
        assert(0xde8b2b66b3bc4723ad2c788035e61382int * 57149369564113749110789177415267047972595499741139933060756292161381631795336909783772401093008601482459152717668701411611027068114195937556302114670502062098275700868804263050422791985147601308281384291376525652594864368438720703125int < 0x2000000000000000000000000000000000000000000000000000000000000000000000000000000000000000000000000000000000000000000000000000000000000000000000000000000000000000000000000000000000000000000000000000000000000000000000000000000000int && 0x2000000000000000000000000000000000000000000000000000000000000000000000000000000000000000000000000000000000000000000000000000000000000000000000000000000000000000000000000000000000000000000000000000000000000000000000000000000000int < 0xde8b2b66b3bc4723ad2c788035e61383int * 57149369564113749110789177415267047972595499741139933060756292161381631795336909783772401093008601482459152717668701411611027068114195937556302114670502062098275700868804263050422791985147601308281384291376525652594864368438720703125int);
    } else if q == -332 {
        assert(entry_value(-332) == 0x8b16fb203055ac764c3bcb5021afcc31int);
        assert(table_exponent(-332) == 898);
        assert(0x8b16fb203055ac764c3bcb5021afcc31int * 11429873912822749822157835483053409594519099948227986612151258432276326359067381956754480218601720296491830543533740282322205413622839187511260422934100412419655140173760852610084558397029520261656276858275305130518972873687744140625int < 0x400000000000000000000000000000000000000000000000000000000000000000000000000000000000000000000000000000000000000000000000000000000000000000000000000000000000000000000000000000000000000000000000000000000000000000000000000000000int && 0x400000000000000000000000000000000000000000000000000000000000000000000000000000000000000000000000000000000000000000000000000000000000000000000000000000000000000000000000000000000000000000000000000000000000000000000000000000000int < 0x8b16fb203055ac764c3bcb5021afcc32int * 11429873912822749822157835483053409594519099948227986612151258432276326359067381956754480218601720296491830543533740282322205413622839187511260422934100412419655140173760852610084558397029520261656276858275305130518972873687744140625int);
    } else if q == -331 {
        assert(entry_value(-331) == 0xaddcb9e83c6b1793df4abe242a1bbf3dint);
        assert(table_exponent(-331) == 896);
        assert(0xaddcb9e83c6b1793df4abe242a1bbf3dint * 2285974782564549964431567096610681918903819989645597322430251686455265271813476391350896043720344059298366108706748056464441082724567837502252084586820082483931028034752170522016911679405904052331255371655061026103794574737548828125int < 0x100000000000000000000000000000000000000000000000000000000000000000000000000000000000000000000000000000000000000000000000000000000000000000000000000000000000000000000000000000000000000000000000000000000000000000000000000000000int && 0x100000000000000000000000000000000000000000000000000000000000000000000000000000000000000000000000000000000000000000000000000000000000000000000000000000000000000000000000000000000000000000000000000000000000000000000000000000000int < 0xaddcb9e83c6b1793df4abe242a1bbf3eint * 2285974782564549964431567096610681918903819989645597322430251686455265271813476391350896043720344059298366108706748056464441082724567837502252084586820082483931028034752170522016911679405904052331255371655061026103794574737548828125int);
    } else if q == -330 {
        assert(entry_value(-330) == 0xd953e8624b85dd78d71d6dad34a2af0dint);
        assert(table_exponent(-330) == 894);
        assert(0xd953e8624b85dd78d71d6dad34a2af0dint * 457194956512909992886313419322136383780763997929119464486050337291053054362695278270179208744068811859673221741349611292888216544913567500450416917364016496786205606950434104403382335881180810466251074331012205220758914947509765625int < 0x40000000000000000000000000000000000000000000000000000000000000000000000000000000000000000000000000000000000000000000000000000000000000000000000000000000000000000000000000000000000000000000000000000000000000000000000000000000int && 0x40000000000000000000000000000000000000000000000000000000000000000000000000000000000000000000000000000000000000000000000000000000000000000000000000000000000000000000000000000000000000000000000000000000000000000000000000000000int < 0xd953e8624b85dd78d71d6dad34a2af0eint * 457194956512909992886313419322136383780763997929119464486050337291053054362695278270179208744068811859673221741349611292888216544913567500450416917364016496786205606950434104403382335881180810466251074331012205220758914947509765625int);
    } else if q == -329 {
        assert(entry_value(-329) == 0x87d4713d6f33aa6b8672648c40e5ad68int);
        assert(table_exponent(-329) == 891);
        assert(0x87d4713d6f33aa6b8672648c40e5ad68int * 91438991302581998577262683864427276756152799585823892897210067458210610872539055654035841748813762371934644348269922258577643308982713500090083383472803299357241121390086820880676467176236162093250214866202441044151782989501953125int < 0x8000000000000000000000000000000000000000000000000000000000000000000000000000000000000000000000000000000000000000000000000000000000000000000000000000000000000000000000000000000000000000000000000000000000000000000000000000000int && 0x8000000000000000000000000000000000000000000000000000000000000000000000000000000000000000000000000000000000000000000000000000000000000000000000000000000000000000000000000000000000000000000000000000000000000000000000000000000int < 0x87d4713d6f33aa6b8672648c40e5ad69int * 91438991302581998577262683864427276756152799585823892897210067458210610872539055654035841748813762371934644348269922258577643308982713500090083383472803299357241121390086820880676467176236162093250214866202441044151782989501953125int);
    } else if q == -328 {
        assert(entry_value(-328) == 0xa9c98d8ccb009506680efdaf511f18c2int);
        assert(table_exponent(-328) == 889);
        assert(0xa9c98d8ccb009506680efdaf511f18c2int * 18287798260516399715452536772885455351230559917164778579442013491642122174507811130807168349762752474386928869653984451715528661796542700018016676694560659871448224278017364176135293435247232418650042973240488208830356597900390625int < 0x2000000000000000000000000000000000000000000000000000000000000000000000000000000000000000000000000000000000000000000000000000000000000000000000000000000000000000000000000000000000000000000000000000000000000000000000000000000int && 0x2000000000000000000000000000000000000000000000000000000000000000000000000000000000000000000000000000000000000000000000000000000000000000000000000000000000000000000000000000000000000000000000000000000000000000000000000000000int < 0xa9c98d8ccb009506680efdaf511f18c3int * 18287798260516399715452536772885455351230559917164778579442013491642122174507811130807168349762752474386928869653984451715528661796542700018016676694560659871448224278017364176135293435247232418650042973240488208830356597900390625int);
    } else if q == -327 {
        assert(entry_value(-327) == 0xd43bf0effdc0ba480212bd1b2566def2int);
        assert(table_exponent(-327) == 887);
        assert(0xd43bf0effdc0ba480212bd1b2566def2int * 3657559652103279943090507354577091070246111983432955715888402698328424434901562226161433669952550494877385773930796890343105732359308540003603335338912131974289644855603472835227058687049446483730008594648097641766071319580078125int < 0x800000000000000000000000000000000000000000000000000000000000000000000000000000000000000000000000000000000000000000000000000000000000000000000000000000000000000000000000000000000000000000000000000000000000000000000000000000int && 0x800000000000000000000000000000000000000000000000000000000000000000000000000000000000000000000000000000000000000000000000000000000000000000000000000000000000000000000000000000000000000000000000000000000000000000000000000000int < 0xd43bf0effdc0ba480212bd1b2566def3int * 3657559652103279943090507354577091070246111983432955715888402698328424434901562226161433669952550494877385773930796890343105732359308540003603335338912131974289644855603472835227058687049446483730008594648097641766071319580078125int);
    } else if q == -326 {
        assert(entry_value(-326) == 0x84a57695fe98746d014bb630f7604b57int);
        assert(table_exponent(-326) == 884);
        assert(0x84a57695fe98746d014bb630f7604b57int * 731511930420655988618101470915418214049222396686591143177680539665684886980312445232286733990510098975477154786159378068621146471861708000720667067782426394857928971120694567045411737409889296746001718929619528353214263916015625int < 0x100000000000000000000000000000000000000000000000000000000000000000000000000000000000000000000000000000000000000000000000000000000000000000000000000000000000000000000000000000000000000000000000000000000000000000000000000000int && 0x100000000000000000000000000000000000000000000000000000000000000000000000000000000000000000000000000000000000000000000000000000000000000000000000000000000000000000000000000000000000000000000000000000000000000000000000000000int < 0x84a57695fe98746d014bb630f7604b58int * 731511930420655988618101470915418214049222396686591143177680539665684886980312445232286733990510098975477154786159378068621146471861708000720667067782426394857928971120694567045411737409889296746001718929619528353214263916015625int);
    } else if q == -325 {
        assert(entry_value(-325) == 0xa5ced43b7e3e9188419ea3bd35385e2dint);
        assert(table_exponent(-325) == 882);
        assert(0xa5ced43b7e3e9188419ea3bd35385e2dint * 146302386084131197723620294183083642809844479337318228635536107933136977396062489046457346798102019795095430957231875613724229294372341600144133413556485278971585794224138913409082347481977859349200343785923905670642852783203125int < 0x40000000000000000000000000000000000000000000000000000000000000000000000000000000000000000000000000000000000000000000000000000000000000000000000000000000000000000000000000000000000000000000000000000000000000000000000000000int && 0x40000000000000000000000000000000000000000000000000000000000000000000000000000000000000000000000000000000000000000000000000000000000000000000000000000000000000000000000000000000000000000000000000000000000000000000000000000int < 0xa5ced43b7e3e9188419ea3bd35385e2eint * 146302386084131197723620294183083642809844479337318228635536107933136977396062489046457346798102019795095430957231875613724229294372341600144133413556485278971585794224138913409082347481977859349200343785923905670642852783203125int);
    } else if q == -324 {
        assert(entry_value(-324) == 0xcf42894a5dce35ea52064cac828675b9int);
        assert(table_exponent(-324) == 880);
        assert(0xcf42894a5dce35ea52064cac828675b9int * 29260477216826239544724058836616728561968895867463645727107221586627395479212497809291469359620403959019086191446375122744845858874468320028826682711297055794317158844827782681816469496395571869840068757184781134128570556640625int < 0x10000000000000000000000000000000000000000000000000000000000000000000000000000000000000000000000000000000000000000000000000000000000000000000000000000000000000000000000000000000000000000000000000000000000000000000000000000int && 0x10000000000000000000000000000000000000000000000000000000000000000000000000000000000000000000000000000000000000000000000000000000000000000000000000000000000000000000000000000000000000000000000000000000000000000000000000000int < 0xcf42894a5dce35ea52064cac828675baint * 29260477216826239544724058836616728561968895867463645727107221586627395479212497809291469359620403959019086191446375122744845858874468320028826682711297055794317158844827782681816469496395571869840068757184781134128570556640625int);
    } else if q == -323 {
        assert(entry_value(-323) == 0x818995ce7aa0e1b27343efebd1940993int);
        assert(table_exponent(-323) == 877);
        assert(0x818995ce7aa0e1b27343efebd1940993int * 5852095443365247908944811767323345712393779173492729145421444317325479095842499561858293871924080791803817238289275024548969171774893664005765336542259411158863431768965556536363293899279114373968013751436956226825714111328125int < 0x2000000000000000000000000000000000000000000000000000000000000000000000000000000000000000000000000000000000000000000000000000000000000000000000000000000000000000000000000000000000000000000000000000000000000000000000000000int && 0x2000000000000000000000000000000000000000000000000000000000000000000000000000000000000000000000000000000000000000000000000000000000000000000000000000000000000000000000000000000000000000000000000000000000000000000000000000int < 0x818995ce7aa0e1b27343efebd1940994int * 5852095443365247908944811767323345712393779173492729145421444317325479095842499561858293871924080791803817238289275024548969171774893664005765336542259411158863431768965556536363293899279114373968013751436956226825714111328125int);
    } else if q == -322 {
        assert(entry_value(-322) == 0xa1ebfb4219491a1f1014ebe6c5f90bf8int);
        assert(table_exponent(-322) == 875);
        assert(0xa1ebfb4219491a1f1014ebe6c5f90bf8int * 1170419088673049581788962353464669142478755834698545829084288863465095819168499912371658774384816158360763447657855004909793834354978732801153067308451882231772686353793111307272658779855822874793602750287391245365142822265625int < 0x800000000000000000000000000000000000000000000000000000000000000000000000000000000000000000000000000000000000000000000000000000000000000000000000000000000000000000000000000000000000000000000000000000000000000000000000000int && 0x800000000000000000000000000000000000000000000000000000000000000000000000000000000000000000000000000000000000000000000000000000000000000000000000000000000000000000000000000000000000000000000000000000000000000000000000000int < 0xa1ebfb4219491a1f1014ebe6c5f90bf9int * 1170419088673049581788962353464669142478755834698545829084288863465095819168499912371658774384816158360763447657855004909793834354978732801153067308451882231772686353793111307272658779855822874793602750287391245365142822265625int);
    } else if q == -321 {
        assert(entry_value(-321) == 0xca66fa129f9b60a6d41a26e077774ef6int);
        assert(table_exponent(-321) == 873);
        assert(0xca66fa129f9b60a6d41a26e077774ef6int * 234083817734609916357792470692933828495751166939709165816857772693019163833699982474331754876963231672152689531571000981958766870995746560230613461690376446354537270758622261454531755971164574958720550057478249073028564453125int < 0x200000000000000000000000000000000000000000000000000000000000000000000000000000000000000000000000000000000000000000000000000000000000000000000000000000000000000000000000000000000000000000000000000000000000000000000000000int && 0x200000000000000000000000000000000000000000000000000000000000000000000000000000000000000000000000000000000000000000000000000000000000000000000000000000000000000000000000000000000000000000000000000000000000000000000000000int < 0xca66fa129f9b60a6d41a26e077774ef7int * 234083817734609916357792470692933828495751166939709165816857772693019163833699982474331754876963231672152689531571000981958766870995746560230613461690376446354537270758622261454531755971164574958720550057478249073028564453125int);
    } else if q == -320 {
        assert(entry_value(-320) == 0xfd00b897478238d08920b098955522b4int);
        assert(table_exponent(-320) == 871);
        assert(0xfd00b897478238d08920b098955522b4int * 46816763546921983271558494138586765699150233387941833163371554538603832766739996494866350975392646334430537906314200196391753374199149312046122692338075289270907454151724452290906351194232914991744110011495649814605712890625int < 0x80000000000000000000000000000000000000000000000000000000000000000000000000000000000000000000000000000000000000000000000000000000000000000000000000000000000000000000000000000000000000000000000000000000000000000000000000int && 0x80000000000000000000000000000000000000000000000000000000000000000000000000000000000000000000000000000000000000000000000000000000000000000000000000000000000000000000000000000000000000000000000000000000000000000000000000int < 0xfd00b897478238d08920b098955522b5int * 46816763546921983271558494138586765699150233387941833163371554538603832766739996494866350975392646334430537906314200196391753374199149312046122692338075289270907454151724452290906351194232914991744110011495649814605712890625int);
    } else if q == -319 {
        assert(entry_value(-319) == 0x9e20735e8cb1638255b46e5f5d5535b0int);
        assert(table_exponent(-319) == 868);
        assert(0x9e20735e8cb1638255b46e5f5d5535b0int * 9363352709384396654311698827717353139830046677588366632674310907720766553347999298973270195078529266886107581262840039278350674839829862409224538467615057854181490830344890458181270238846582998348822002299129962921142578125int < 0x10000000000000000000000000000000000000000000000000000000000000000000000000000000000000000000000000000000000000000000000000000000000000000000000000000000000000000000000000000000000000000000000000000000000000000000000000int && 0x10000000000000000000000000000000000000000000000000000000000000000000000000000000000000000000000000000000000000000000000000000000000000000000000000000000000000000000000000000000000000000000000000000000000000000000000000int < 0x9e20735e8cb1638255b46e5f5d5535b1int * 9363352709384396654311698827717353139830046677588366632674310907720766553347999298973270195078529266886107581262840039278350674839829862409224538467615057854181490830344890458181270238846582998348822002299129962921142578125int);
    } else if q == -318 {
        assert(entry_value(-318) == 0xc5a890362fddbc62eb2189f734aa831dint);
        assert(table_exponent(-318) == 866);
        assert(0xc5a890362fddbc62eb2189f734aa831dint * 1872670541876879330862339765543470627966009335517673326534862181544153310669599859794654039015705853377221516252568007855670134967965972481844907693523011570836298166068978091636254047769316599669764400459825992584228515625int < 0x4000000000000000000000000000000000000000000000000000000000000000000000000000000000000000000000000000000000000000000000000000000000000000000000000000000000000000000000000000000000000000000000000000000000000000000000000int && 0x4000000000000000000000000000000000000000000000000000000000000000000000000000000000000000000000000000000000000000000000000000000000000000000000000000000000000000000000000000000000000000000000000000000000000000000000000int < 0xc5a890362fddbc62eb2189f734aa831eint * 1872670541876879330862339765543470627966009335517673326534862181544153310669599859794654039015705853377221516252568007855670134967965972481844907693523011570836298166068978091636254047769316599669764400459825992584228515625int);
    } else if q == -317 {
        assert(entry_value(-317) == 0xf712b443bbd52b7ba5e9ec7501d523e4int);
        assert(table_exponent(-317) == 864);
        assert(0xf712b443bbd52b7ba5e9ec7501d523e4int * 374534108375375866172467953108694125593201867103534665306972436308830662133919971958930807803141170675444303250513601571134026993593194496368981538704602314167259633213795618327250809553863319933952880091965198516845703125int < 0x1000000000000000000000000000000000000000000000000000000000000000000000000000000000000000000000000000000000000000000000000000000000000000000000000000000000000000000000000000000000000000000000000000000000000000000000000int && 0x1000000000000000000000000000000000000000000000000000000000000000000000000000000000000000000000000000000000000000000000000000000000000000000000000000000000000000000000000000000000000000000000000000000000000000000000000int < 0xf712b443bbd52b7ba5e9ec7501d523e5int * 374534108375375866172467953108694125593201867103534665306972436308830662133919971958930807803141170675444303250513601571134026993593194496368981538704602314167259633213795618327250809553863319933952880091965198516845703125int);
    } else if q == -316 {
        assert(entry_value(-316) == 0x9a6bb0aa55653b2d47b233c92125366eint);
        assert(table_exponent(-316) == 861);
        assert(0x9a6bb0aa55653b2d47b233c92125366eint * 74906821675075173234493590621738825118640373420706933061394487261766132426783994391786161560628234135088860650102720314226805398718638899273796307740920462833451926642759123665450161910772663986790576018393039703369140625int < 0x200000000000000000000000000000000000000000000000000000000000000000000000000000000000000000000000000000000000000000000000000000000000000000000000000000000000000000000000000000000000000000000000000000000000000000000000int && 0x200000000000000000000000000000000000000000000000000000000000000000000000000000000000000000000000000000000000000000000000000000000000000000000000000000000000000000000000000000000000000000000000000000000000000000000000int < 0x9a6bb0aa55653b2d47b233c92125366fint * 74906821675075173234493590621738825118640373420706933061394487261766132426783994391786161560628234135088860650102720314226805398718638899273796307740920462833451926642759123665450161910772663986790576018393039703369140625int);
    } else if q == -315 {
        assert(entry_value(-315) == 0xc1069cd4eabe89f8999ec0bb696e840aint);
        assert(table_exponent(-315) == 859);
        assert(0xc1069cd4eabe89f8999ec0bb696e840aint * 14981364335015034646898718124347765023728074684141386612278897452353226485356798878357232312125646827017772130020544062845361079743727779854759261548184092566690385328551824733090032382154532797358115203678607940673828125int < 0x80000000000000000000000000000000000000000000000000000000000000000000000000000000000000000000000000000000000000000000000000000000000000000000000000000000000000000000000000000000000000000000000000000000000000000000000int && 0x80000000000000000000000000000000000000000000000000000000000000000000000000000000000000000000000000000000000000000000000000000000000000000000000000000000000000000000000000000000000000000000000000000000000000000000000int < 0xc1069cd4eabe89f8999ec0bb696e840bint * 14981364335015034646898718124347765023728074684141386612278897452353226485356798878357232312125646827017772130020544062845361079743727779854759261548184092566690385328551824733090032382154532797358115203678607940673828125int);
    } else if q == -314 {
        assert(entry_value(-314) == 0xf148440a256e2c76c00670ea43ca250dint);
        assert(table_exponent(-314) == 857);
        assert(0xf148440a256e2c76c00670ea43ca250dint * 2996272867003006929379743624869553004745614936828277322455779490470645297071359775671446462425129365403554426004108812569072215948745555970951852309636818513338077065710364946618006476430906559471623040735721588134765625int < 0x20000000000000000000000000000000000000000000000000000000000000000000000000000000000000000000000000000000000000000000000000000000000000000000000000000000000000000000000000000000000000000000000000000000000000000000000int && 0x20000000000000000000000000000000000000000000000000000000000000000000000000000000000000000000000000000000000000000000000000000000000000000000000000000000000000000000000000000000000000000000000000000000000000000000000int < 0xf148440a256e2c76c00670ea43ca250eint * 2996272867003006929379743624869553004745614936828277322455779490470645297071359775671446462425129365403554426004108812569072215948745555970951852309636818513338077065710364946618006476430906559471623040735721588134765625int);
    } else if q == -313 {
        assert(entry_value(-313) == 0x96cd2a865764dbca380406926a5e5728int);
        assert(table_exponent(-313) == 854);
        assert(0x96cd2a865764dbca380406926a5e5728int * 599254573400601385875948724973910600949122987365655464491155898094129059414271955134289292485025873080710885200821762513814443189749111194190370461927363702667615413142072989323601295286181311894324608147144317626953125int < 0x4000000000000000000000000000000000000000000000000000000000000000000000000000000000000000000000000000000000000000000000000000000000000000000000000000000000000000000000000000000000000000000000000000000000000000000000int && 0x4000000000000000000000000000000000000000000000000000000000000000000000000000000000000000000000000000000000000000000000000000000000000000000000000000000000000000000000000000000000000000000000000000000000000000000000int < 0x96cd2a865764dbca380406926a5e5729int * 599254573400601385875948724973910600949122987365655464491155898094129059414271955134289292485025873080710885200821762513814443189749111194190370461927363702667615413142072989323601295286181311894324608147144317626953125int);
    }
}

/// A part of the entries of the table, each held against its power of five.
proof fn lemma_entries_1(q: int)
    requires
        -312 <= q <= -283,
    ensures
        approximates(q),
{
    lemma_pow5_values_7();
    lemma_pow2_values_3();
    lemma_pow2_values_19();
    lemma_pow2_values_20();
    lemma_pow2_values_21();
    if q == -312 {
        assert(entry_value(-312) == 0xbc807527ed3e12bcc605083704f5ecf2int);
        assert(table_exponent(-312) == 852);
        assert(0xbc807527ed3e12bcc605083704f5ecf2int * 119850914680120277175189744994782120189824597473131092898231179618825811882854391026857858497005174616142177040164352502762888637949822238838074092385472740533523082628414597864720259057236262378864921629428863525390625int < 0x1000000000000000000000000000000000000000000000000000000000000000000000000000000000000000000000000000000000000000000000000000000000000000000000000000000000000000000000000000000000000000000000000000000000000000000000int && 0x1000000000000000000000000000000000000000000000000000000000000000000000000000000000000000000000000000000000000000000000000000000000000000000000000000000000000000000000000000000000000000000000000000000000000000000000int < 0xbc807527ed3e12bcc605083704f5ecf3int * 119850914680120277175189744994782120189824597473131092898231179618825811882854391026857858497005174616142177040164352502762888637949822238838074092385472740533523082628414597864720259057236262378864921629428863525390625int);
    } else if q == -311 {
        assert(entry_value(-311) == 0xeba09271e88d976bf7864a44c633682eint);
        assert(table_exponent(-311) == 850);
        assert(0xeba09271e88d976bf7864a44c633682eint * 23970182936024055435037948998956424037964919494626218579646235923765162376570878205371571699401034923228435408032870500552577727589964447767614818477094548106704616525682919572944051811447252475772984325885772705078125int < 0x400000000000000000000000000000000000000000000000000000000000000000000000000000000000000000000000000000000000000000000000000000000000000000000000000000000000000000000000000000000000000000000000000000000000000000000int && 0x400000000000000000000000000000000000000000000000000000000000000000000000000000000000000000000000000000000000000000000000000000000000000000000000000000000000000000000000000000000000000000000000000000000000000000000int < 0xeba09271e88d976bf7864a44c633682fint * 23970182936024055435037948998956424037964919494626218579646235923765162376570878205371571699401034923228435408032870500552577727589964447767614818477094548106704616525682919572944051811447252475772984325885772705078125int);
    } else if q == -310 {
        assert(entry_value(-310) == 0x93445b8731587ea37ab3ee6afbe0211dint);
        assert(table_exponent(-310) == 847);
        assert(0x93445b8731587ea37ab3ee6afbe0211dint * 4794036587204811087007589799791284807592983898925243715929247184753032475314175641074314339880206984645687081606574100110515545517992889553522963695418909621340923305136583914588810362289450495154596865177154541015625int < 0x80000000000000000000000000000000000000000000000000000000000000000000000000000000000000000000000000000000000000000000000000000000000000000000000000000000000000000000000000000000000000000000000000000000000000000000int && 0x80000000000000000000000000000000000000000000000000000000000000000000000000000000000000000000000000000000000000000000000000000000000000000000000000000000000000000000000000000000000000000000000000000000000000000000int < 0x93445b8731587ea37ab3ee6afbe0211eint * 4794036587204811087007589799791284807592983898925243715929247184753032475314175641074314339880206984645687081606574100110515545517992889553522963695418909621340923305136583914588810362289450495154596865177154541015625int);
    } else if q == -309 {
        assert(entry_value(-309) == 0xb8157268fdae9e4c5960ea05bad82964int);
        assert(table_exponent(-309) == 845);
        assert(0xb8157268fdae9e4c5960ea05bad82964int * 958807317440962217401517959958256961518596779785048743185849436950606495062835128214862867976041396929137416321314820022103109103598577910704592739083781924268184661027316782917762072457890099030919373035430908203125int < 0x20000000000000000000000000000000000000000000000000000000000000000000000000000000000000000000000000000000000000000000000000000000000000000000000000000000000000000000000000000000000000000000000000000000000000000000int && 0x20000000000000000000000000000000000000000000000000000000000000000000000000000000000000000000000000000000000000000000000000000000000000000000000000000000000000000000000000000000000000000000000000000000000000000000int < 0xb8157268fdae9e4c5960ea05bad82965int * 958807317440962217401517959958256961518596779785048743185849436950606495062835128214862867976041396929137416321314820022103109103598577910704592739083781924268184661027316782917762072457890099030919373035430908203125int);
    } else if q == -308 {
        assert(entry_value(-308) == 0xe61acf033d1a45df6fb92487298e33bdint);
        assert(table_exponent(-308) == 843);
        assert(0xe61acf033d1a45df6fb92487298e33bdint * 191761463488192443480303591991651392303719355957009748637169887390121299012567025642972573595208279385827483264262964004420621820719715582140918547816756384853636932205463356583552414491578019806183874607086181640625int < 0x8000000000000000000000000000000000000000000000000000000000000000000000000000000000000000000000000000000000000000000000000000000000000000000000000000000000000000000000000000000000000000000000000000000000000000000int && 0x8000000000000000000000000000000000000000000000000000000000000000000000000000000000000000000000000000000000000000000000000000000000000000000000000000000000000000000000000000000000000000000000000000000000000000000int < 0xe61acf033d1a45df6fb92487298e33beint * 191761463488192443480303591991651392303719355957009748637169887390121299012567025642972573595208279385827483264262964004420621820719715582140918547816756384853636932205463356583552414491578019806183874607086181640625int);
    } else if q == -307 {
        assert(entry_value(-307) == 0x8fd0c16206306baba5d3b6d479f8e056int);
        assert(table_exponent(-307) == 840);
        assert(0x8fd0c16206306baba5d3b6d479f8e056int * 38352292697638488696060718398330278460743871191401949727433977478024259802513405128594514719041655877165496652852592800884124364143943116428183709563351276970727386441092671316710482898315603961236774921417236328125int < 0x1000000000000000000000000000000000000000000000000000000000000000000000000000000000000000000000000000000000000000000000000000000000000000000000000000000000000000000000000000000000000000000000000000000000000000000int && 0x1000000000000000000000000000000000000000000000000000000000000000000000000000000000000000000000000000000000000000000000000000000000000000000000000000000000000000000000000000000000000000000000000000000000000000000int < 0x8fd0c16206306baba5d3b6d479f8e057int * 38352292697638488696060718398330278460743871191401949727433977478024259802513405128594514719041655877165496652852592800884124364143943116428183709563351276970727386441092671316710482898315603961236774921417236328125int);
    } else if q == -306 {
        assert(entry_value(-306) == 0xb3c4f1ba87bc86968f48a4899877186cint);
        assert(table_exponent(-306) == 838);
        assert(0xb3c4f1ba87bc86968f48a4899877186cint * 7670458539527697739212143679666055692148774238280389945486795495604851960502681025718902943808331175433099330570518560176824872828788623285636741912670255394145477288218534263342096579663120792247354984283447265625int < 0x400000000000000000000000000000000000000000000000000000000000000000000000000000000000000000000000000000000000000000000000000000000000000000000000000000000000000000000000000000000000000000000000000000000000000000int && 0x400000000000000000000000000000000000000000000000000000000000000000000000000000000000000000000000000000000000000000000000000000000000000000000000000000000000000000000000000000000000000000000000000000000000000000int < 0xb3c4f1ba87bc86968f48a4899877186dint * 7670458539527697739212143679666055692148774238280389945486795495604851960502681025718902943808331175433099330570518560176824872828788623285636741912670255394145477288218534263342096579663120792247354984283447265625int);
    } else if q == -305 {
        assert(entry_value(-305) == 0xe0b62e2929aba83c331acdabfe94de87int);
        assert(table_exponent(-305) == 836);
        assert(0xe0b62e2929aba83c331acdabfe94de87int * 1534091707905539547842428735933211138429754847656077989097359099120970392100536205143780588761666235086619866114103712035364974565757724657127348382534051078829095457643706852668419315932624158449470996856689453125int < 0x100000000000000000000000000000000000000000000000000000000000000000000000000000000000000000000000000000000000000000000000000000000000000000000000000000000000000000000000000000000000000000000000000000000000000000int && 0x100000000000000000000000000000000000000000000000000000000000000000000000000000000000000000000000000000000000000000000000000000000000000000000000000000000000000000000000000000000000000000000000000000000000000000int < 0xe0b62e2929aba83c331acdabfe94de88int * 1534091707905539547842428735933211138429754847656077989097359099120970392100536205143780588761666235086619866114103712035364974565757724657127348382534051078829095457643706852668419315932624158449470996856689453125int);
    } else if q == -304 {
        assert(entry_value(-304) == 0x8c71dcd9ba0b49259ff0c08b7f1d0b14int);
        assert(table_exponent(-304) == 833);
        assert(0x8c71dcd9ba0b49259ff0c08b7f1d0b14int * 306818341581107909568485747186642227685950969531215597819471819824194078420107241028756117752333247017323973222820742407072994913151544931425469676506810215765819091528741370533683863186524831689894199371337890625int < 0x20000000000000000000000000000000000000000000000000000000000000000000000000000000000000000000000000000000000000000000000000000000000000000000000000000000000000000000000000000000000000000000000000000000000000000int && 0x20000000000000000000000000000000000000000000000000000000000000000000000000000000000000000000000000000000000000000000000000000000000000000000000000000000000000000000000000000000000000000000000000000000000000000int < 0x8c71dcd9ba0b49259ff0c08b7f1d0b15int * 306818341581107909568485747186642227685950969531215597819471819824194078420107241028756117752333247017323973222820742407072994913151544931425469676506810215765819091528741370533683863186524831689894199371337890625int);
    } else if q == -303 {
        assert(entry_value(-303) == 0xaf8e5410288e1b6f07ecf0ae5ee44dd9int);
        assert(table_exponent(-303) == 831);
        assert(0xaf8e5410288e1b6f07ecf0ae5ee44dd9int * 61363668316221581913697149437328445537190193906243119563894363964838815684021448205751223550466649403464794644564148481414598982630308986285093935301362043153163818305748274106736772637304966337978839874267578125int < 0x8000000000000000000000000000000000000000000000000000000000000000000000000000000000000000000000000000000000000000000000000000000000000000000000000000000000000000000000000000000000000000000000000000000000000000int && 0x8000000000000000000000000000000000000000000000000000000000000000000000000000000000000000000000000000000000000000000000000000000000000000000000000000000000000000000000000000000000000000000000000000000000000000int < 0xaf8e5410288e1b6f07ecf0ae5ee44ddaint * 61363668316221581913697149437328445537190193906243119563894363964838815684021448205751223550466649403464794644564148481414598982630308986285093935301362043153163818305748274106736772637304966337978839874267578125int);
    } else if q == -302 {
        assert(entry_value(-302) == 0xdb71e91432b1a24ac9e82cd9f69d6150int);
        assert(table_exponent(-302) == 829);
        assert(0xdb71e91432b1a24ac9e82cd9f69d6150int * 12272733663244316382739429887465689107438038781248623912778872792967763136804289641150244710093329880692958928912829696282919796526061797257018787060272408630632763661149654821347354527460993267595767974853515625int < 0x2000000000000000000000000000000000000000000000000000000000000000000000000000000000000000000000000000000000000000000000000000000000000000000000000000000000000000000000000000000000000000000000000000000000000000int && 0x2000000000000000000000000000000000000000000000000000000000000000000000000000000000000000000000000000000000000000000000000000000000000000000000000000000000000000000000000000000000000000000000000000000000000000int < 0xdb71e91432b1a24ac9e82cd9f69d6151int * 12272733663244316382739429887465689107438038781248623912778872792967763136804289641150244710093329880692958928912829696282919796526061797257018787060272408630632763661149654821347354527460993267595767974853515625int);
    } else if q == -301 {
        assert(entry_value(-301) == 0x892731ac9faf056ebe311c083a225cd2int);
        assert(table_exponent(-301) == 826);
        assert(0x892731ac9faf056ebe311c083a225cd2int * 2454546732648863276547885977493137821487607756249724782555774558593552627360857928230048942018665976138591785782565939256583959305212359451403757412054481726126552732229930964269470905492198653519153594970703125int < 0x400000000000000000000000000000000000000000000000000000000000000000000000000000000000000000000000000000000000000000000000000000000000000000000000000000000000000000000000000000000000000000000000000000000000000int && 0x400000000000000000000000000000000000000000000000000000000000000000000000000000000000000000000000000000000000000000000000000000000000000000000000000000000000000000000000000000000000000000000000000000000000000int < 0x892731ac9faf056ebe311c083a225cd3int * 2454546732648863276547885977493137821487607756249724782555774558593552627360857928230048942018665976138591785782565939256583959305212359451403757412054481726126552732229930964269470905492198653519153594970703125int);
    } else if q == -300 {
        assert(entry_value(-300) == 0xab70fe17c79ac6ca6dbd630a48aaf406int);
        assert(table_exponent(-300) == 824);
        assert(0xab70fe17c79ac6ca6dbd630a48aaf406int * 490909346529772655309577195498627564297521551249944956511154911718710525472171585646009788403733195227718357156513187851316791861042471890280751482410896345225310546445986192853894181098439730703830718994140625int < 0x100000000000000000000000000000000000000000000000000000000000000000000000000000000000000000000000000000000000000000000000000000000000000000000000000000000000000000000000000000000000000000000000000000000000000int && 0x100000000000000000000000000000000000000000000000000000000000000000000000000000000000000000000000000000000000000000000000000000000000000000000000000000000000000000000000000000000000000000000000000000000000000int < 0xab70fe17c79ac6ca6dbd630a48aaf407int * 490909346529772655309577195498627564297521551249944956511154911718710525472171585646009788403733195227718357156513187851316791861042471890280751482410896345225310546445986192853894181098439730703830718994140625int);
    } else if q == -299 {
        assert(entry_value(-299) == 0xd64d3d9db981787d092cbbccdad5b108int);
        assert(table_exponent(-299) == 822);
        assert(0xd64d3d9db981787d092cbbccdad5b108int * 98181869305954531061915439099725512859504310249988991302230982343742105094434317129201957680746639045543671431302637570263358372208494378056150296482179269045062109289197238570778836219687946140766143798828125int < 0x40000000000000000000000000000000000000000000000000000000000000000000000000000000000000000000000000000000000000000000000000000000000000000000000000000000000000000000000000000000000000000000000000000000000000int && 0x40000000000000000000000000000000000000000000000000000000000000000000000000000000000000000000000000000000000000000000000000000000000000000000000000000000000000000000000000000000000000000000000000000000000000int < 0xd64d3d9db981787d092cbbccdad5b109int * 98181869305954531061915439099725512859504310249988991302230982343742105094434317129201957680746639045543671431302637570263358372208494378056150296482179269045062109289197238570778836219687946140766143798828125int);
    } else if q == -298 {
        assert(entry_value(-298) == 0x85f0468293f0eb4e25bbf56008c58ea5int);
        assert(table_exponent(-298) == 819);
        assert(0x85f0468293f0eb4e25bbf56008c58ea5int * 19636373861190906212383087819945102571900862049997798260446196468748421018886863425840391536149327809108734286260527514052671674441698875611230059296435853809012421857839447714155767243937589228153228759765625int < 0x8000000000000000000000000000000000000000000000000000000000000000000000000000000000000000000000000000000000000000000000000000000000000000000000000000000000000000000000000000000000000000000000000000000000000int && 0x8000000000000000000000000000000000000000000000000000000000000000000000000000000000000000000000000000000000000000000000000000000000000000000000000000000000000000000000000000000000000000000000000000000000000int < 0x85f0468293f0eb4e25bbf56008c58ea6int * 19636373861190906212383087819945102571900862049997798260446196468748421018886863425840391536149327809108734286260527514052671674441698875611230059296435853809012421857839447714155767243937589228153228759765625int);
    } else if q == -297 {
        assert(entry_value(-297) == 0xa76c582338ed2621af2af2b80af6f24eint);
        assert(table_exponent(-297) == 817);
        assert(0xa76c582338ed2621af2af2b80af6f24eint * 3927274772238181242476617563989020514380172409999559652089239293749684203777372685168078307229865561821746857252105502810534334888339775122246011859287170761802484371567889542831153448787517845630645751953125int < 0x2000000000000000000000000000000000000000000000000000000000000000000000000000000000000000000000000000000000000000000000000000000000000000000000000000000000000000000000000000000000000000000000000000000000000int && 0x2000000000000000000000000000000000000000000000000000000000000000000000000000000000000000000000000000000000000000000000000000000000000000000000000000000000000000000000000000000000000000000000000000000000000int < 0xa76c582338ed2621af2af2b80af6f24fint * 3927274772238181242476617563989020514380172409999559652089239293749684203777372685168078307229865561821746857252105502810534334888339775122246011859287170761802484371567889542831153448787517845630645751953125int);
    } else if q == -296 {
        assert(entry_value(-296) == 0xd1476e2c07286faa1af5af660db4aee1int);
        assert(table_exponent(-296) == 815);
        assert(0xd1476e2c07286faa1af5af660db4aee1int * 785454954447636248495323512797804102876034481999911930417847858749936840755474537033615661445973112364349371450421100562106866977667955024449202371857434152360496874313577908566230689757503569126129150390625int < 0x800000000000000000000000000000000000000000000000000000000000000000000000000000000000000000000000000000000000000000000000000000000000000000000000000000000000000000000000000000000000000000000000000000000000int && 0x800000000000000000000000000000000000000000000000000000000000000000000000000000000000000000000000000000000000000000000000000000000000000000000000000000000000000000000000000000000000000000000000000000000000int < 0xd1476e2c07286faa1af5af660db4aee2int * 785454954447636248495323512797804102876034481999911930417847858749936840755474537033615661445973112364349371450421100562106866977667955024449202371857434152360496874313577908566230689757503569126129150390625int);
    } else if q == -295 {
        assert(entry_value(-295) == 0x82cca4db847945ca50d98d9fc890ed4dint);
        assert(table_exponent(-295) == 812);
        assert(0x82cca4db847945ca50d98d9fc890ed4dint * 157090990889527249699064702559560820575206896399982386083569571749987368151094907406723132289194622472869874290084220112421373395533591004889840474371486830472099374862715581713246137951500713825225830078125int < 0x100000000000000000000000000000000000000000000000000000000000000000000000000000000000000000000000000000000000000000000000000000000000000000000000000000000000000000000000000000000000000000000000000000000000int && 0x100000000000000000000000000000000000000000000000000000000000000000000000000000000000000000000000000000000000000000000000000000000000000000000000000000000000000000000000000000000000000000000000000000000000int < 0x82cca4db847945ca50d98d9fc890ed4eint * 157090990889527249699064702559560820575206896399982386083569571749987368151094907406723132289194622472869874290084220112421373395533591004889840474371486830472099374862715581713246137951500713825225830078125int);
    } else if q == -294 {
        assert(entry_value(-294) == 0xa37fce126597973ce50ff107bab528a0int);
        assert(table_exponent(-294) == 810);
        assert(0xa37fce126597973ce50ff107bab528a0int * 31418198177905449939812940511912164115041379279996477216713914349997473630218981481344626457838924494573974858016844022484274679106718200977968094874297366094419874972543116342649227590300142765045166015625int < 0x40000000000000000000000000000000000000000000000000000000000000000000000000000000000000000000000000000000000000000000000000000000000000000000000000000000000000000000000000000000000000000000000000000000000int && 0x40000000000000000000000000000000000000000000000000000000000000000000000000000000000000000000000000000000000000000000000000000000000000000000000000000000000000000000000000000000000000000000000000000000000int < 0xa37fce126597973ce50ff107bab528a1int * 31418198177905449939812940511912164115041379279996477216713914349997473630218981481344626457838924494573974858016844022484274679106718200977968094874297366094419874972543116342649227590300142765045166015625int);
    } else if q == -293 {
        assert(entry_value(-293) == 0xcc5fc196fefd7d0c1e53ed49a96272c8int);
        assert(table_exponent(-293) == 808);
        assert(0xcc5fc196fefd7d0c1e53ed49a96272c8int * 6283639635581089987962588102382432823008275855999295443342782869999494726043796296268925291567784898914794971603368804496854935821343640195593618974859473218883974994508623268529845518060028553009033203125int < 0x10000000000000000000000000000000000000000000000000000000000000000000000000000000000000000000000000000000000000000000000000000000000000000000000000000000000000000000000000000000000000000000000000000000000int && 0x10000000000000000000000000000000000000000000000000000000000000000000000000000000000000000000000000000000000000000000000000000000000000000000000000000000000000000000000000000000000000000000000000000000000int < 0xcc5fc196fefd7d0c1e53ed49a96272c9int * 6283639635581089987962588102382432823008275855999295443342782869999494726043796296268925291567784898914794971603368804496854935821343640195593618974859473218883974994508623268529845518060028553009033203125int);
    } else if q == -292 {
        assert(entry_value(-292) == 0xff77b1fcbebcdc4f25e8e89c13bb0f7aint);
        assert(table_exponent(-292) == 806);
        assert(0xff77b1fcbebcdc4f25e8e89c13bb0f7aint * 1256727927116217997592517620476486564601655171199859088668556573999898945208759259253785058313556979782958994320673760899370987164268728039118723794971894643776794998901724653705969103612005710601806640625int < 0x4000000000000000000000000000000000000000000000000000000000000000000000000000000000000000000000000000000000000000000000000000000000000000000000000000000000000000000000000000000000000000000000000000000000int && 0x4000000000000000000000000000000000000000000000000000000000000000000000000000000000000000000000000000000000000000000000000000000000000000000000000000000000000000000000000000000000000000000000000000000000int < 0xff77b1fcbebcdc4f25e8e89c13bb0f7bint * 1256727927116217997592517620476486564601655171199859088668556573999898945208759259253785058313556979782958994320673760899370987164268728039118723794971894643776794998901724653705969103612005710601806640625int);
    } else if q == -291 {
        assert(entry_value(-291) == 0x9faacf3df73609b177b191618c54e9acint);
        assert(table_exponent(-291) == 803);
        assert(0x9faacf3df73609b177b191618c54e9acint * 251345585423243599518503524095297312920331034239971817733711314799979789041751851850757011662711395956591798864134752179874197432853745607823744758994378928755358999780344930741193820722401142120361328125int < 0x800000000000000000000000000000000000000000000000000000000000000000000000000000000000000000000000000000000000000000000000000000000000000000000000000000000000000000000000000000000000000000000000000000000int && 0x800000000000000000000000000000000000000000000000000000000000000000000000000000000000000000000000000000000000000000000000000000000000000000000000000000000000000000000000000000000000000000000000000000000int < 0x9faacf3df73609b177b191618c54e9adint * 251345585423243599518503524095297312920331034239971817733711314799979789041751851850757011662711395956591798864134752179874197432853745607823744758994378928755358999780344930741193820722401142120361328125int);
    } else if q == -290 {
        assert(entry_value(-290) == 0xc795830d75038c1dd59df5b9ef6a2417int);
        assert(table_exponent(-290) == 801);
        assert(0xc795830d75038c1dd59df5b9ef6a2417int * 50269117084648719903700704819059462584066206847994363546742262959995957808350370370151402332542279191318359772826950435974839486570749121564748951798875785751071799956068986148238764144480228424072265625int < 0x200000000000000000000000000000000000000000000000000000000000000000000000000000000000000000000000000000000000000000000000000000000000000000000000000000000000000000000000000000000000000000000000000000000int && 0x200000000000000000000000000000000000000000000000000000000000000000000000000000000000000000000000000000000000000000000000000000000000000000000000000000000000000000000000000000000000000000000000000000000int < 0xc795830d75038c1dd59df5b9ef6a2418int * 50269117084648719903700704819059462584066206847994363546742262959995957808350370370151402332542279191318359772826950435974839486570749121564748951798875785751071799956068986148238764144480228424072265625int);
    } else if q == -289 {
        assert(entry_value(-289) == 0xf97ae3d0d2446f254b0573286b44ad1dint);
        assert(table_exponent(-289) == 799);
        assert(0xf97ae3d0d2446f254b0573286b44ad1dint * 10053823416929743980740140963811892516813241369598872709348452591999191561670074074030280466508455838263671954565390087194967897314149824312949790359775157150214359991213797229647752828896045684814453125int < 0x80000000000000000000000000000000000000000000000000000000000000000000000000000000000000000000000000000000000000000000000000000000000000000000000000000000000000000000000000000000000000000000000000000000int && 0x80000000000000000000000000000000000000000000000000000000000000000000000000000000000000000000000000000000000000000000000000000000000000000000000000000000000000000000000000000000000000000000000000000000int < 0xf97ae3d0d2446f254b0573286b44ad1eint * 10053823416929743980740140963811892516813241369598872709348452591999191561670074074030280466508455838263671954565390087194967897314149824312949790359775157150214359991213797229647752828896045684814453125int);
    } else if q == -288 {
        assert(entry_value(-288) == 0x9becce62836ac5774ee367f9430aec32int);
        assert(table_exponent(-288) == 796);
        assert(0x9becce62836ac5774ee367f9430aec32int * 2010764683385948796148028192762378503362648273919774541869690518399838312334014814806056093301691167652734390913078017438993579462829964862589958071955031430042871998242759445929550565779209136962890625int < 0x10000000000000000000000000000000000000000000000000000000000000000000000000000000000000000000000000000000000000000000000000000000000000000000000000000000000000000000000000000000000000000000000000000000int && 0x10000000000000000000000000000000000000000000000000000000000000000000000000000000000000000000000000000000000000000000000000000000000000000000000000000000000000000000000000000000000000000000000000000000int < 0x9becce62836ac5774ee367f9430aec33int * 2010764683385948796148028192762378503362648273919774541869690518399838312334014814806056093301691167652734390913078017438993579462829964862589958071955031430042871998242759445929550565779209136962890625int);
    } else if q == -287 {
        assert(entry_value(-287) == 0xc2e801fb244576d5229c41f793cda73fint);
        assert(table_exponent(-287) == 794);
        assert(0xc2e801fb244576d5229c41f793cda73fint * 402152936677189759229605638552475700672529654783954908373938103679967662466802962961211218660338233530546878182615603487798715892565992972517991614391006286008574399648551889185910113155841827392578125int < 0x4000000000000000000000000000000000000000000000000000000000000000000000000000000000000000000000000000000000000000000000000000000000000000000000000000000000000000000000000000000000000000000000000000000int && 0x4000000000000000000000000000000000000000000000000000000000000000000000000000000000000000000000000000000000000000000000000000000000000000000000000000000000000000000000000000000000000000000000000000000int < 0xc2e801fb244576d5229c41f793cda740int * 402152936677189759229605638552475700672529654783954908373938103679967662466802962961211218660338233530546878182615603487798715892565992972517991614391006286008574399648551889185910113155841827392578125int);
    } else if q == -286 {
        assert(entry_value(-286) == 0xf3a20279ed56d48a6b43527578c1110fint);
        assert(table_exponent(-286) == 792);
        assert(0xf3a20279ed56d48a6b43527578c1110fint * 80430587335437951845921127710495140134505930956790981674787620735993532493360592592242243732067646706109375636523120697559743178513198594503598322878201257201714879929710377837182022631168365478515625int < 0x1000000000000000000000000000000000000000000000000000000000000000000000000000000000000000000000000000000000000000000000000000000000000000000000000000000000000000000000000000000000000000000000000000000int && 0x1000000000000000000000000000000000000000000000000000000000000000000000000000000000000000000000000000000000000000000000000000000000000000000000000000000000000000000000000000000000000000000000000000000int < 0xf3a20279ed56d48a6b43527578c11110int * 80430587335437951845921127710495140134505930956790981674787620735993532493360592592242243732067646706109375636523120697559743178513198594503598322878201257201714879929710377837182022631168365478515625int);
    } else if q == -285 {
        assert(entry_value(-285) == 0x9845418c345644d6830a13896b78aaa9int);
        assert(table_exponent(-285) == 789);
        assert(0x9845418c345644d6830a13896b78aaa9int * 16086117467087590369184225542099028026901186191358196334957524147198706498672118518448448746413529341221875127304624139511948635702639718900719664575640251440342975985942075567436404526233673095703125int < 0x200000000000000000000000000000000000000000000000000000000000000000000000000000000000000000000000000000000000000000000000000000000000000000000000000000000000000000000000000000000000000000000000000000int && 0x200000000000000000000000000000000000000000000000000000000000000000000000000000000000000000000000000000000000000000000000000000000000000000000000000000000000000000000000000000000000000000000000000000int < 0x9845418c345644d6830a13896b78aaaaint * 16086117467087590369184225542099028026901186191358196334957524147198706498672118518448448746413529341221875127304624139511948635702639718900719664575640251440342975985942075567436404526233673095703125int);
    } else if q == -284 {
        assert(entry_value(-284) == 0xbe5691ef416bd60c23cc986bc656d553int);
        assert(table_exponent(-284) == 787);
        assert(0xbe5691ef416bd60c23cc986bc656d553int * 3217223493417518073836845108419805605380237238271639266991504829439741299734423703689689749282705868244375025460924827902389727140527943780143932915128050288068595197188415113487280905246734619140625int < 0x80000000000000000000000000000000000000000000000000000000000000000000000000000000000000000000000000000000000000000000000000000000000000000000000000000000000000000000000000000000000000000000000000000int && 0x80000000000000000000000000000000000000000000000000000000000000000000000000000000000000000000000000000000000000000000000000000000000000000000000000000000000000000000000000000000000000000000000000000int < 0xbe5691ef416bd60c23cc986bc656d554int * 3217223493417518073836845108419805605380237238271639266991504829439741299734423703689689749282705868244375025460924827902389727140527943780143932915128050288068595197188415113487280905246734619140625int);
    } else if q == -283 {
        assert(entry_value(-283) == 0xedec366b11c6cb8f2cbfbe86b7ec8aa8int);
        assert(table_exponent(-283) == 785);
        assert(0xedec366b11c6cb8f2cbfbe86b7ec8aa8int * 643444698683503614767369021683961121076047447654327853398300965887948259946884740737937949856541173648875005092184965580477945428105588756028786583025610057613719039437683022697456181049346923828125int < 0x20000000000000000000000000000000000000000000000000000000000000000000000000000000000000000000000000000000000000000000000000000000000000000000000000000000000000000000000000000000000000000000000000000int && 0x20000000000000000000000000000000000000000000000000000000000000000000000000000000000000000000000000000000000000000000000000000000000000000000000000000000000000000000000000000000000000000000000000000int < 0xedec366b11c6cb8f2cbfbe86b7ec8aa9int * 643444698683503614767369021683961121076047447654327853398300965887948259946884740737937949856541173648875005092184965580477945428105588756028786583025610057613719039437683022697456181049346923828125int);
    }
}

/// A part of the entries of the table, each held against its power of five.
proof fn lemma_entries_2(q: int)
    requires
        -282 <= q <= -253,
    ensures
        approximates(q),
{
    lemma_pow5_values_6();
    lemma_pow5_values_7();
    lemma_pow2_values_3();
    lemma_pow2_values_17();
    lemma_pow2_values_18();
    lemma_pow2_values_19();
    if q == -282 {
        assert(entry_value(-282) == 0x94b3a202eb1c3f397bf7d71432f3d6a9int);
        assert(table_exponent(-282) == 782);
        assert(0x94b3a202eb1c3f397bf7d71432f3d6a9int * 128688939736700722953473804336792224215209489530865570679660193177589651989376948147587589971308234729775001018436993116095589085621117751205757316605122011522743807887536604539491236209869384765625int < 0x4000000000000000000000000000000000000000000000000000000000000000000000000000000000000000000000000000000000000000000000000000000000000000000000000000000000000000000000000000000000000000000000000000int && 0x4000000000000000000000000000000000000000000000000000000000000000000000000000000000000000000000000000000000000000000000000000000000000000000000000000000000000000000000000000000000000000000000000000int < 0x94b3a202eb1c3f397bf7d71432f3d6aaint * 128688939736700722953473804336792224215209489530865570679660193177589651989376948147587589971308234729775001018436993116095589085621117751205757316605122011522743807887536604539491236209869384765625int);
    } else if q == -281 {
        assert(entry_value(-281) == 0xb9e08a83a5e34f07daf5ccd93fb0cc53int);
        assert(table_exponent(-281) == 780);
        assert(0xb9e08a83a5e34f07daf5ccd93fb0cc53int * 25737787947340144590694760867358444843041897906173114135932038635517930397875389629517517994261646945955000203687398623219117817124223550241151463321024402304548761577507320907898247241973876953125int < 0x1000000000000000000000000000000000000000000000000000000000000000000000000000000000000000000000000000000000000000000000000000000000000000000000000000000000000000000000000000000000000000000000000000int && 0x1000000000000000000000000000000000000000000000000000000000000000000000000000000000000000000000000000000000000000000000000000000000000000000000000000000000000000000000000000000000000000000000000000int < 0xb9e08a83a5e34f07daf5ccd93fb0cc54int * 25737787947340144590694760867358444843041897906173114135932038635517930397875389629517517994261646945955000203687398623219117817124223550241151463321024402304548761577507320907898247241973876953125int);
    } else if q == -280 {
        assert(entry_value(-280) == 0xe858ad248f5c22c9d1b3400f8f9cff68int);
        assert(table_exponent(-280) == 778);
        assert(0xe858ad248f5c22c9d1b3400f8f9cff68int * 5147557589468028918138952173471688968608379581234622827186407727103586079575077925903503598852329389191000040737479724643823563424844710048230292664204880460909752315501464181579649448394775390625int < 0x400000000000000000000000000000000000000000000000000000000000000000000000000000000000000000000000000000000000000000000000000000000000000000000000000000000000000000000000000000000000000000000000000int && 0x400000000000000000000000000000000000000000000000000000000000000000000000000000000000000000000000000000000000000000000000000000000000000000000000000000000000000000000000000000000000000000000000000int < 0xe858ad248f5c22c9d1b3400f8f9cff69int * 5147557589468028918138952173471688968608379581234622827186407727103586079575077925903503598852329389191000040737479724643823563424844710048230292664204880460909752315501464181579649448394775390625int);
    } else if q == -279 {
        assert(entry_value(-279) == 0x91376c36d99995be23100809b9c21fa1int);
        assert(table_exponent(-279) == 775);
        assert(0x91376c36d99995be23100809b9c21fa1int * 1029511517893605783627790434694337793721675916246924565437281545420717215915015585180700719770465877838200008147495944928764712684968942009646058532840976092181950463100292836315929889678955078125int < 0x80000000000000000000000000000000000000000000000000000000000000000000000000000000000000000000000000000000000000000000000000000000000000000000000000000000000000000000000000000000000000000000000000int && 0x80000000000000000000000000000000000000000000000000000000000000000000000000000000000000000000000000000000000000000000000000000000000000000000000000000000000000000000000000000000000000000000000000int < 0x91376c36d99995be23100809b9c21fa2int * 1029511517893605783627790434694337793721675916246924565437281545420717215915015585180700719770465877838200008147495944928764712684968942009646058532840976092181950463100292836315929889678955078125int);
    } else if q == -278 {
        assert(entry_value(-278) == 0xb58547448ffffb2dabd40a0c2832a78aint);
        assert(table_exponent(-278) == 773);
        assert(0xb58547448ffffb2dabd40a0c2832a78aint * 205902303578721156725558086938867558744335183249384913087456309084143443183003117036140143954093175567640001629499188985752942536993788401929211706568195218436390092620058567263185977935791015625int < 0x20000000000000000000000000000000000000000000000000000000000000000000000000000000000000000000000000000000000000000000000000000000000000000000000000000000000000000000000000000000000000000000000000int && 0x20000000000000000000000000000000000000000000000000000000000000000000000000000000000000000000000000000000000000000000000000000000000000000000000000000000000000000000000000000000000000000000000000int < 0xb58547448ffffb2dabd40a0c2832a78bint * 205902303578721156725558086938867558744335183249384913087456309084143443183003117036140143954093175567640001629499188985752942536993788401929211706568195218436390092620058567263185977935791015625int);
    } else if q == -277 {
        assert(entry_value(-277) == 0xe2e69915b3fff9f916c90c8f323f516cint);
        assert(table_exponent(-277) == 771);
        assert(0xe2e69915b3fff9f916c90c8f323f516cint * 41180460715744231345111617387773511748867036649876982617491261816828688636600623407228028790818635113528000325899837797150588507398757680385842341313639043687278018524011713452637195587158203125int < 0x8000000000000000000000000000000000000000000000000000000000000000000000000000000000000000000000000000000000000000000000000000000000000000000000000000000000000000000000000000000000000000000000000int && 0x8000000000000000000000000000000000000000000000000000000000000000000000000000000000000000000000000000000000000000000000000000000000000000000000000000000000000000000000000000000000000000000000000int < 0xe2e69915b3fff9f916c90c8f323f516dint * 41180460715744231345111617387773511748867036649876982617491261816828688636600623407228028790818635113528000325899837797150588507398757680385842341313639043687278018524011713452637195587158203125int);
    } else if q == -276 {
        assert(entry_value(-276) == 0x8dd01fad907ffc3bae3da7d97f6792e3int);
        assert(table_exponent(-276) == 768);
        assert(0x8dd01fad907ffc3bae3da7d97f6792e3int * 8236092143148846269022323477554702349773407329975396523498252363365737727320124681445605758163727022705600065179967559430117701479751536077168468262727808737455603704802342690527439117431640625int < 0x1000000000000000000000000000000000000000000000000000000000000000000000000000000000000000000000000000000000000000000000000000000000000000000000000000000000000000000000000000000000000000000000000int && 0x1000000000000000000000000000000000000000000000000000000000000000000000000000000000000000000000000000000000000000000000000000000000000000000000000000000000000000000000000000000000000000000000000int < 0x8dd01fad907ffc3bae3da7d97f6792e4int * 8236092143148846269022323477554702349773407329975396523498252363365737727320124681445605758163727022705600065179967559430117701479751536077168468262727808737455603704802342690527439117431640625int);
    } else if q == -275 {
        assert(entry_value(-275) == 0xb1442798f49ffb4a99cd11cfdf41779cint);
        assert(table_exponent(-275) == 766);
        assert(0xb1442798f49ffb4a99cd11cfdf41779cint * 1647218428629769253804464695510940469954681465995079304699650472673147545464024936289121151632745404541120013035993511886023540295950307215433693652545561747491120740960468538105487823486328125int < 0x400000000000000000000000000000000000000000000000000000000000000000000000000000000000000000000000000000000000000000000000000000000000000000000000000000000000000000000000000000000000000000000000int && 0x400000000000000000000000000000000000000000000000000000000000000000000000000000000000000000000000000000000000000000000000000000000000000000000000000000000000000000000000000000000000000000000000int < 0xb1442798f49ffb4a99cd11cfdf41779dint * 1647218428629769253804464695510940469954681465995079304699650472673147545464024936289121151632745404541120013035993511886023540295950307215433693652545561747491120740960468538105487823486328125int);
    } else if q == -274 {
        assert(entry_value(-274) == 0xdd95317f31c7fa1d40405643d711d583int);
        assert(table_exponent(-274) == 764);
        assert(0xdd95317f31c7fa1d40405643d711d583int * 329443685725953850760892939102188093990936293199015860939930094534629509092804987257824230326549080908224002607198702377204708059190061443086738730509112349498224148192093707621097564697265625int < 0x100000000000000000000000000000000000000000000000000000000000000000000000000000000000000000000000000000000000000000000000000000000000000000000000000000000000000000000000000000000000000000000000int && 0x100000000000000000000000000000000000000000000000000000000000000000000000000000000000000000000000000000000000000000000000000000000000000000000000000000000000000000000000000000000000000000000000int < 0xdd95317f31c7fa1d40405643d711d584int * 329443685725953850760892939102188093990936293199015860939930094534629509092804987257824230326549080908224002607198702377204708059190061443086738730509112349498224148192093707621097564697265625int);
    } else if q == -273 {
        assert(entry_value(-273) == 0x8a7d3eef7f1cfc52482835ea666b2572int);
        assert(table_exponent(-273) == 761);
        assert(0x8a7d3eef7f1cfc52482835ea666b2572int * 65888737145190770152178587820437618798187258639803172187986018906925901818560997451564846065309816181644800521439740475440941611838012288617347746101822469899644829638418741524219512939453125int < 0x20000000000000000000000000000000000000000000000000000000000000000000000000000000000000000000000000000000000000000000000000000000000000000000000000000000000000000000000000000000000000000000000int && 0x20000000000000000000000000000000000000000000000000000000000000000000000000000000000000000000000000000000000000000000000000000000000000000000000000000000000000000000000000000000000000000000000int < 0x8a7d3eef7f1cfc52482835ea666b2573int * 65888737145190770152178587820437618798187258639803172187986018906925901818560997451564846065309816181644800521439740475440941611838012288617347746101822469899644829638418741524219512939453125int);
    } else if q == -272 {
        assert(entry_value(-272) == 0xad1c8eab5ee43b66da3243650005eecfint);
        assert(table_exponent(-272) == 759);
        assert(0xad1c8eab5ee43b66da3243650005eecfint * 13177747429038154030435717564087523759637451727960634437597203781385180363712199490312969213061963236328960104287948095088188322367602457723469549220364493979928965927683748304843902587890625int < 0x8000000000000000000000000000000000000000000000000000000000000000000000000000000000000000000000000000000000000000000000000000000000000000000000000000000000000000000000000000000000000000000000int && 0x8000000000000000000000000000000000000000000000000000000000000000000000000000000000000000000000000000000000000000000000000000000000000000000000000000000000000000000000000000000000000000000000int < 0xad1c8eab5ee43b66da3243650005eed0int * 13177747429038154030435717564087523759637451727960634437597203781385180363712199490312969213061963236328960104287948095088188322367602457723469549220364493979928965927683748304843902587890625int);
    } else if q == -271 {
        assert(entry_value(-271) == 0xd863b256369d4a4090bed43e40076a82int);
        assert(table_exponent(-271) == 757);
        assert(0xd863b256369d4a4090bed43e40076a82int * 2635549485807630806087143512817504751927490345592126887519440756277036072742439898062593842612392647265792020857589619017637664473520491544693909844072898795985793185536749660968780517578125int < 0x2000000000000000000000000000000000000000000000000000000000000000000000000000000000000000000000000000000000000000000000000000000000000000000000000000000000000000000000000000000000000000000000int && 0x2000000000000000000000000000000000000000000000000000000000000000000000000000000000000000000000000000000000000000000000000000000000000000000000000000000000000000000000000000000000000000000000int < 0xd863b256369d4a4090bed43e40076a83int * 2635549485807630806087143512817504751927490345592126887519440756277036072742439898062593842612392647265792020857589619017637664473520491544693909844072898795985793185536749660968780517578125int);
    } else if q == -270 {
        assert(entry_value(-270) == 0x873e4f75e2224e685a7744a6e804a291int);
        assert(table_exponent(-270) == 754);
        assert(0x873e4f75e2224e685a7744a6e804a291int * 527109897161526161217428702563500950385498069118425377503888151255407214548487979612518768522478529453158404171517923803527532894704098308938781968814579759197158637107349932193756103515625int < 0x400000000000000000000000000000000000000000000000000000000000000000000000000000000000000000000000000000000000000000000000000000000000000000000000000000000000000000000000000000000000000000000int && 0x400000000000000000000000000000000000000000000000000000000000000000000000000000000000000000000000000000000000000000000000000000000000000000000000000000000000000000000000000000000000000000000int < 0x873e4f75e2224e685a7744a6e804a292int * 527109897161526161217428702563500950385498069118425377503888151255407214548487979612518768522478529453158404171517923803527532894704098308938781968814579759197158637107349932193756103515625int);
    } else if q == -269 {
        assert(entry_value(-269) == 0xa90de3535aaae202711515d0a205cb36int);
        assert(table_exponent(-269) == 752);
        assert(0xa90de3535aaae202711515d0a205cb36int * 105421979432305232243485740512700190077099613823685075500777630251081442909697595922503753704495705890631680834303584760705506578940819661787756393762915951839431727421469986438751220703125int < 0x100000000000000000000000000000000000000000000000000000000000000000000000000000000000000000000000000000000000000000000000000000000000000000000000000000000000000000000000000000000000000000000int && 0x100000000000000000000000000000000000000000000000000000000000000000000000000000000000000000000000000000000000000000000000000000000000000000000000000000000000000000000000000000000000000000000int < 0xa90de3535aaae202711515d0a205cb37int * 105421979432305232243485740512700190077099613823685075500777630251081442909697595922503753704495705890631680834303584760705506578940819661787756393762915951839431727421469986438751220703125int);
    } else if q == -268 {
        assert(entry_value(-268) == 0xd3515c2831559a830d5a5b44ca873e03int);
        assert(table_exponent(-268) == 750);
        assert(0xd3515c2831559a830d5a5b44ca873e03int * 21084395886461046448697148102540038015419922764737015100155526050216288581939519184500750740899141178126336166860716952141101315788163932357551278752583190367886345484293997287750244140625int < 0x40000000000000000000000000000000000000000000000000000000000000000000000000000000000000000000000000000000000000000000000000000000000000000000000000000000000000000000000000000000000000000000int && 0x40000000000000000000000000000000000000000000000000000000000000000000000000000000000000000000000000000000000000000000000000000000000000000000000000000000000000000000000000000000000000000000int < 0xd3515c2831559a830d5a5b44ca873e04int * 21084395886461046448697148102540038015419922764737015100155526050216288581939519184500750740899141178126336166860716952141101315788163932357551278752583190367886345484293997287750244140625int);
    } else if q == -267 {
        assert(entry_value(-267) == 0x8412d9991ed58091e858790afe9486c2int);
        assert(table_exponent(-267) == 747);
        assert(0x8412d9991ed58091e858790afe9486c2int * 4216879177292209289739429620508007603083984552947403020031105210043257716387903836900150148179828235625267233372143390428220263157632786471510255750516638073577269096858799457550048828125int < 0x8000000000000000000000000000000000000000000000000000000000000000000000000000000000000000000000000000000000000000000000000000000000000000000000000000000000000000000000000000000000000000000int && 0x8000000000000000000000000000000000000000000000000000000000000000000000000000000000000000000000000000000000000000000000000000000000000000000000000000000000000000000000000000000000000000000int < 0x8412d9991ed58091e858790afe9486c3int * 4216879177292209289739429620508007603083984552947403020031105210043257716387903836900150148179828235625267233372143390428220263157632786471510255750516638073577269096858799457550048828125int);
    } else if q == -266 {
        assert(entry_value(-266) == 0xa5178fff668ae0b6626e974dbe39a872int);
        assert(table_exponent(-266) == 745);
        assert(0xa5178fff668ae0b6626e974dbe39a872int * 843375835458441857947885924101601520616796910589480604006221042008651543277580767380030029635965647125053446674428678085644052631526557294302051150103327614715453819371759891510009765625int < 0x2000000000000000000000000000000000000000000000000000000000000000000000000000000000000000000000000000000000000000000000000000000000000000000000000000000000000000000000000000000000000000000int && 0x2000000000000000000000000000000000000000000000000000000000000000000000000000000000000000000000000000000000000000000000000000000000000000000000000000000000000000000000000000000000000000000int < 0xa5178fff668ae0b6626e974dbe39a873int * 843375835458441857947885924101601520616796910589480604006221042008651543277580767380030029635965647125053446674428678085644052631526557294302051150103327614715453819371759891510009765625int);
    } else if q == -265 {
        assert(entry_value(-265) == 0xce5d73ff402d98e3fb0a3d212dc8128fint);
        assert(table_exponent(-265) == 743);
        assert(0xce5d73ff402d98e3fb0a3d212dc8128fint * 168675167091688371589577184820320304123359382117896120801244208401730308655516153476006005927193129425010689334885735617128810526305311458860410230020665522943090763874351978302001953125int < 0x800000000000000000000000000000000000000000000000000000000000000000000000000000000000000000000000000000000000000000000000000000000000000000000000000000000000000000000000000000000000000000int && 0x800000000000000000000000000000000000000000000000000000000000000000000000000000000000000000000000000000000000000000000000000000000000000000000000000000000000000000000000000000000000000000int < 0xce5d73ff402d98e3fb0a3d212dc81290int * 168675167091688371589577184820320304123359382117896120801244208401730308655516153476006005927193129425010689334885735617128810526305311458860410230020665522943090763874351978302001953125int);
    } else if q == -264 {
        assert(entry_value(-264) == 0x80fa687f881c7f8e7ce66634bc9d0b99int);
        assert(table_exponent(-264) == 740);
        assert(0x80fa687f881c7f8e7ce66634bc9d0b99int * 33735033418337674317915436964064060824671876423579224160248841680346061731103230695201201185438625885002137866977147123425762105261062291772082046004133104588618152774870395660400390625int < 0x100000000000000000000000000000000000000000000000000000000000000000000000000000000000000000000000000000000000000000000000000000000000000000000000000000000000000000000000000000000000000000int && 0x100000000000000000000000000000000000000000000000000000000000000000000000000000000000000000000000000000000000000000000000000000000000000000000000000000000000000000000000000000000000000000int < 0x80fa687f881c7f8e7ce66634bc9d0b9aint * 33735033418337674317915436964064060824671876423579224160248841680346061731103230695201201185438625885002137866977147123425762105261062291772082046004133104588618152774870395660400390625int);
    } else if q == -263 {
        assert(entry_value(-263) == 0xa139029f6a239f721c1fffc1ebc44e80int);
        assert(table_exponent(-263) == 738);
        assert(0xa139029f6a239f721c1fffc1ebc44e80int * 6747006683667534863583087392812812164934375284715844832049768336069212346220646139040240237087725177000427573395429424685152421052212458354416409200826620917723630554974079132080078125int < 0x40000000000000000000000000000000000000000000000000000000000000000000000000000000000000000000000000000000000000000000000000000000000000000000000000000000000000000000000000000000000000000int && 0x40000000000000000000000000000000000000000000000000000000000000000000000000000000000000000000000000000000000000000000000000000000000000000000000000000000000000000000000000000000000000000int < 0xa139029f6a239f721c1fffc1ebc44e81int * 6747006683667534863583087392812812164934375284715844832049768336069212346220646139040240237087725177000427573395429424685152421052212458354416409200826620917723630554974079132080078125int);
    } else if q == -262 {
        assert(entry_value(-262) == 0xc987434744ac874ea327ffb266b56220int);
        assert(table_exponent(-262) == 736);
        assert(0xc987434744ac874ea327ffb266b56220int * 1349401336733506972716617478562562432986875056943168966409953667213842469244129227808048047417545035400085514679085884937030484210442491670883281840165324183544726110994815826416015625int < 0x10000000000000000000000000000000000000000000000000000000000000000000000000000000000000000000000000000000000000000000000000000000000000000000000000000000000000000000000000000000000000000int && 0x10000000000000000000000000000000000000000000000000000000000000000000000000000000000000000000000000000000000000000000000000000000000000000000000000000000000000000000000000000000000000000int < 0xc987434744ac874ea327ffb266b56221int * 1349401336733506972716617478562562432986875056943168966409953667213842469244129227808048047417545035400085514679085884937030484210442491670883281840165324183544726110994815826416015625int);
    } else if q == -261 {
        assert(entry_value(-261) == 0xfbe9141915d7a9224bf1ff9f0062baa8int);
        assert(table_exponent(-261) == 734);
        assert(0xfbe9141915d7a9224bf1ff9f0062baa8int * 269880267346701394543323495712512486597375011388633793281990733442768493848825845561609609483509007080017102935817176987406096842088498334176656368033064836708945222198963165283203125int < 0x4000000000000000000000000000000000000000000000000000000000000000000000000000000000000000000000000000000000000000000000000000000000000000000000000000000000000000000000000000000000000000int && 0x4000000000000000000000000000000000000000000000000000000000000000000000000000000000000000000000000000000000000000000000000000000000000000000000000000000000000000000000000000000000000000int < 0xfbe9141915d7a9224bf1ff9f0062baa9int * 269880267346701394543323495712512486597375011388633793281990733442768493848825845561609609483509007080017102935817176987406096842088498334176656368033064836708945222198963165283203125int);
    } else if q == -260 {
        assert(entry_value(-260) == 0x9d71ac8fada6c9b56f773fc3603db4a9int);
        assert(table_exponent(-260) == 731);
        assert(0x9d71ac8fada6c9b56f773fc3603db4a9int * 53976053469340278908664699142502497319475002277726758656398146688553698769765169112321921896701801416003420587163435397481219368417699666835331273606612967341789044439792633056640625int < 0x800000000000000000000000000000000000000000000000000000000000000000000000000000000000000000000000000000000000000000000000000000000000000000000000000000000000000000000000000000000000000int && 0x800000000000000000000000000000000000000000000000000000000000000000000000000000000000000000000000000000000000000000000000000000000000000000000000000000000000000000000000000000000000000int < 0x9d71ac8fada6c9b56f773fc3603db4aaint * 53976053469340278908664699142502497319475002277726758656398146688553698769765169112321921896701801416003420587163435397481219368417699666835331273606612967341789044439792633056640625int);
    } else if q == -259 {
        assert(entry_value(-259) == 0xc4ce17b399107c22cb550fb4384d21d3int);
        assert(table_exponent(-259) == 729);
        assert(0xc4ce17b399107c22cb550fb4384d21d3int * 10795210693868055781732939828500499463895000455545351731279629337710739753953033822464384379340360283200684117432687079496243873683539933367066254721322593468357808887958526611328125int < 0x200000000000000000000000000000000000000000000000000000000000000000000000000000000000000000000000000000000000000000000000000000000000000000000000000000000000000000000000000000000000000int && 0x200000000000000000000000000000000000000000000000000000000000000000000000000000000000000000000000000000000000000000000000000000000000000000000000000000000000000000000000000000000000000int < 0xc4ce17b399107c22cb550fb4384d21d4int * 10795210693868055781732939828500499463895000455545351731279629337710739753953033822464384379340360283200684117432687079496243873683539933367066254721322593468357808887958526611328125int);
    } else if q == -258 {
        assert(entry_value(-258) == 0xf6019da07f549b2b7e2a53a146606a48int);
        assert(table_exponent(-258) == 727);
        assert(0xf6019da07f549b2b7e2a53a146606a48int * 2159042138773611156346587965700099892779000091109070346255925867542147950790606764492876875868072056640136823486537415899248774736707986673413250944264518693671561777591705322265625int < 0x80000000000000000000000000000000000000000000000000000000000000000000000000000000000000000000000000000000000000000000000000000000000000000000000000000000000000000000000000000000000000int && 0x80000000000000000000000000000000000000000000000000000000000000000000000000000000000000000000000000000000000000000000000000000000000000000000000000000000000000000000000000000000000000int < 0xf6019da07f549b2b7e2a53a146606a49int * 2159042138773611156346587965700099892779000091109070346255925867542147950790606764492876875868072056640136823486537415899248774736707986673413250944264518693671561777591705322265625int);
    } else if q == -257 {
        assert(entry_value(-257) == 0x99c102844f94e0fb2eda7444cbfc426dint);
        assert(table_exponent(-257) == 724);
        assert(0x99c102844f94e0fb2eda7444cbfc426dint * 431808427754722231269317593140019978555800018221814069251185173508429590158121352898575375173614411328027364697307483179849754947341597334682650188852903738734312355518341064453125int < 0x10000000000000000000000000000000000000000000000000000000000000000000000000000000000000000000000000000000000000000000000000000000000000000000000000000000000000000000000000000000000000int && 0x10000000000000000000000000000000000000000000000000000000000000000000000000000000000000000000000000000000000000000000000000000000000000000000000000000000000000000000000000000000000000int < 0x99c102844f94e0fb2eda7444cbfc426eint * 431808427754722231269317593140019978555800018221814069251185173508429590158121352898575375173614411328027364697307483179849754947341597334682650188852903738734312355518341064453125int);
    } else if q == -256 {
        assert(entry_value(-256) == 0xc0314325637a1939fa911155fefb5308int);
        assert(table_exponent(-256) == 722);
        assert(0xc0314325637a1939fa911155fefb5308int * 86361685550944446253863518628003995711160003644362813850237034701685918031624270579715075034722882265605472939461496635969950989468319466936530037770580747746862471103668212890625int < 0x4000000000000000000000000000000000000000000000000000000000000000000000000000000000000000000000000000000000000000000000000000000000000000000000000000000000000000000000000000000000000int && 0x4000000000000000000000000000000000000000000000000000000000000000000000000000000000000000000000000000000000000000000000000000000000000000000000000000000000000000000000000000000000000int < 0xc0314325637a1939fa911155fefb5309int * 86361685550944446253863518628003995711160003644362813850237034701685918031624270579715075034722882265605472939461496635969950989468319466936530037770580747746862471103668212890625int);
    } else if q == -255 {
        assert(entry_value(-255) == 0xf03d93eebc589f88793555ab7eba27caint);
        assert(table_exponent(-255) == 720);
        assert(0xf03d93eebc589f88793555ab7eba27caint * 17272337110188889250772703725600799142232000728872562770047406940337183606324854115943015006944576453121094587892299327193990197893663893387306007554116149549372494220733642578125int < 0x1000000000000000000000000000000000000000000000000000000000000000000000000000000000000000000000000000000000000000000000000000000000000000000000000000000000000000000000000000000000000int && 0x1000000000000000000000000000000000000000000000000000000000000000000000000000000000000000000000000000000000000000000000000000000000000000000000000000000000000000000000000000000000000int < 0xf03d93eebc589f88793555ab7eba27cbint * 17272337110188889250772703725600799142232000728872562770047406940337183606324854115943015006944576453121094587892299327193990197893663893387306007554116149549372494220733642578125int);
    } else if q == -254 {
        assert(entry_value(-254) == 0x96267c7535b763b54bc1558b2f3458deint);
        assert(table_exponent(-254) == 717);
        assert(0x96267c7535b763b54bc1558b2f3458deint * 3454467422037777850154540745120159828446400145774512554009481388067436721264970823188603001388915290624218917578459865438798039578732778677461201510823229909874498844146728515625int < 0x200000000000000000000000000000000000000000000000000000000000000000000000000000000000000000000000000000000000000000000000000000000000000000000000000000000000000000000000000000000000int && 0x200000000000000000000000000000000000000000000000000000000000000000000000000000000000000000000000000000000000000000000000000000000000000000000000000000000000000000000000000000000000int < 0x96267c7535b763b54bc1558b2f3458dfint * 3454467422037777850154540745120159828446400145774512554009481388067436721264970823188603001388915290624218917578459865438798039578732778677461201510823229909874498844146728515625int);
    } else if q == -253 {
        assert(entry_value(-253) == 0xbbb01b9283253ca29eb1aaedfb016f16int);
        assert(table_exponent(-253) == 715);
        assert(0xbbb01b9283253ca29eb1aaedfb016f16int * 690893484407555570030908149024031965689280029154902510801896277613487344252994164637720600277783058124843783515691973087759607915746555735492240302164645981974899768829345703125int < 0x80000000000000000000000000000000000000000000000000000000000000000000000000000000000000000000000000000000000000000000000000000000000000000000000000000000000000000000000000000000000int && 0x80000000000000000000000000000000000000000000000000000000000000000000000000000000000000000000000000000000000000000000000000000000000000000000000000000000000000000000000000000000000int < 0xbbb01b9283253ca29eb1aaedfb016f17int * 690893484407555570030908149024031965689280029154902510801896277613487344252994164637720600277783058124843783515691973087759607915746555735492240302164645981974899768829345703125int);
    }
}

/// A part of the entries of the table, each held against its power of five.
proof fn lemma_entries_3(q: int)
    requires
        -252 <= q <= -223,
    ensures
        approximates(q),
{
    lemma_pow5_values_5();
    lemma_pow5_values_6();
    lemma_pow2_values_3();
    lemma_pow2_values_16();
    lemma_pow2_values_17();
    if q == -252 {
        assert(entry_value(-252) == 0xea9c227723ee8bcb465e15a979c1cadcint);
        assert(table_exponent(-252) == 713);
        assert(0xea9c227723ee8bcb465e15a979c1cadcint * 138178696881511114006181629804806393137856005830980502160379255522697468850598832927544120055556611624968756703138394617551921583149311147098448060432929196394979953765869140625int < 0x20000000000000000000000000000000000000000000000000000000000000000000000000000000000000000000000000000000000000000000000000000000000000000000000000000000000000000000000000000000000int && 0x20000000000000000000000000000000000000000000000000000000000000000000000000000000000000000000000000000000000000000000000000000000000000000000000000000000000000000000000000000000000int < 0xea9c227723ee8bcb465e15a979c1caddint * 138178696881511114006181629804806393137856005830980502160379255522697468850598832927544120055556611624968756703138394617551921583149311147098448060432929196394979953765869140625int);
    } else if q == -251 {
        assert(entry_value(-251) == 0x92a1958a7675175f0bfacd89ec191ec9int);
        assert(table_exponent(-251) == 710);
        assert(0x92a1958a7675175f0bfacd89ec191ec9int * 27635739376302222801236325960961278627571201166196100432075851104539493770119766585508824011111322324993751340627678923510384316629862229419689612086585839278995990753173828125int < 0x4000000000000000000000000000000000000000000000000000000000000000000000000000000000000000000000000000000000000000000000000000000000000000000000000000000000000000000000000000000000int && 0x4000000000000000000000000000000000000000000000000000000000000000000000000000000000000000000000000000000000000000000000000000000000000000000000000000000000000000000000000000000000int < 0x92a1958a7675175f0bfacd89ec191ecaint * 27635739376302222801236325960961278627571201166196100432075851104539493770119766585508824011111322324993751340627678923510384316629862229419689612086585839278995990753173828125int);
    } else if q == -250 {
        assert(entry_value(-250) == 0xb749faed14125d36cef980ec671f667bint);
        assert(table_exponent(-250) == 708);
        assert(0xb749faed14125d36cef980ec671f667bint * 5527147875260444560247265192192255725514240233239220086415170220907898754023953317101764802222264464998750268125535784702076863325972445883937922417317167855799198150634765625int < 0x1000000000000000000000000000000000000000000000000000000000000000000000000000000000000000000000000000000000000000000000000000000000000000000000000000000000000000000000000000000000int && 0x1000000000000000000000000000000000000000000000000000000000000000000000000000000000000000000000000000000000000000000000000000000000000000000000000000000000000000000000000000000000int < 0xb749faed14125d36cef980ec671f667cint * 5527147875260444560247265192192255725514240233239220086415170220907898754023953317101764802222264464998750268125535784702076863325972445883937922417317167855799198150634765625int);
    } else if q == -249 {
        assert(entry_value(-249) == 0xe51c79a85916f48482b7e12780e7401aint);
        assert(table_exponent(-249) == 706);
        assert(0xe51c79a85916f48482b7e12780e7401aint * 1105429575052088912049453038438451145102848046647844017283034044181579750804790663420352960444452892999750053625107156940415372665194489176787584483463433571159839630126953125int < 0x400000000000000000000000000000000000000000000000000000000000000000000000000000000000000000000000000000000000000000000000000000000000000000000000000000000000000000000000000000000int && 0x400000000000000000000000000000000000000000000000000000000000000000000000000000000000000000000000000000000000000000000000000000000000000000000000000000000000000000000000000000000int < 0xe51c79a85916f48482b7e12780e7401bint * 1105429575052088912049453038438451145102848046647844017283034044181579750804790663420352960444452892999750053625107156940415372665194489176787584483463433571159839630126953125int);
    } else if q == -248 {
        assert(entry_value(-248) == 0x8f31cc0937ae58d2d1b2ecb8b0908810int);
        assert(table_exponent(-248) == 703);
        assert(0x8f31cc0937ae58d2d1b2ecb8b0908810int * 221085915010417782409890607687690229020569609329568803456606808836315950160958132684070592088890578599950010725021431388083074533038897835357516896692686714231967926025390625int < 0x80000000000000000000000000000000000000000000000000000000000000000000000000000000000000000000000000000000000000000000000000000000000000000000000000000000000000000000000000000000int && 0x80000000000000000000000000000000000000000000000000000000000000000000000000000000000000000000000000000000000000000000000000000000000000000000000000000000000000000000000000000000int < 0x8f31cc0937ae58d2d1b2ecb8b0908811int * 221085915010417782409890607687690229020569609329568803456606808836315950160958132684070592088890578599950010725021431388083074533038897835357516896692686714231967926025390625int);
    } else if q == -247 {
        assert(entry_value(-247) == 0xb2fe3f0b8599ef07861fa7e6dcb4aa15int);
        assert(table_exponent(-247) == 701);
        assert(0xb2fe3f0b8599ef07861fa7e6dcb4aa15int * 44217183002083556481978121537538045804113921865913760691321361767263190032191626536814118417778115719990002145004286277616614906607779567071503379338537342846393585205078125int < 0x20000000000000000000000000000000000000000000000000000000000000000000000000000000000000000000000000000000000000000000000000000000000000000000000000000000000000000000000000000000int && 0x20000000000000000000000000000000000000000000000000000000000000000000000000000000000000000000000000000000000000000000000000000000000000000000000000000000000000000000000000000000int < 0xb2fe3f0b8599ef07861fa7e6dcb4aa16int * 44217183002083556481978121537538045804113921865913760691321361767263190032191626536814118417778115719990002145004286277616614906607779567071503379338537342846393585205078125int);
    } else if q == -246 {
        assert(entry_value(-246) == 0xdfbdcece67006ac967a791e093e1d49aint);
        assert(table_exponent(-246) == 699);
        assert(0xdfbdcece67006ac967a791e093e1d49aint * 8843436600416711296395624307507609160822784373182752138264272353452638006438325307362823683555623143998000429000857255523322981321555913414300675867707468569278717041015625int < 0x8000000000000000000000000000000000000000000000000000000000000000000000000000000000000000000000000000000000000000000000000000000000000000000000000000000000000000000000000000000int && 0x8000000000000000000000000000000000000000000000000000000000000000000000000000000000000000000000000000000000000000000000000000000000000000000000000000000000000000000000000000000int < 0xdfbdcece67006ac967a791e093e1d49bint * 8843436600416711296395624307507609160822784373182752138264272353452638006438325307362823683555623143998000429000857255523322981321555913414300675867707468569278717041015625int);
    } else if q == -245 {
        assert(entry_value(-245) == 0x8bd6a141006042bde0c8bb2c5c6d24e0int);
        assert(table_exponent(-245) == 696);
        assert(0x8bd6a141006042bde0c8bb2c5c6d24e0int * 1768687320083342259279124861501521832164556874636550427652854470690527601287665061472564736711124628799600085800171451104664596264311182682860135173541493713855743408203125int < 0x1000000000000000000000000000000000000000000000000000000000000000000000000000000000000000000000000000000000000000000000000000000000000000000000000000000000000000000000000000000int && 0x1000000000000000000000000000000000000000000000000000000000000000000000000000000000000000000000000000000000000000000000000000000000000000000000000000000000000000000000000000000int < 0x8bd6a141006042bde0c8bb2c5c6d24e1int * 1768687320083342259279124861501521832164556874636550427652854470690527601287665061472564736711124628799600085800171451104664596264311182682860135173541493713855743408203125int);
    } else if q == -244 {
        assert(entry_value(-244) == 0xaecc49914078536d58fae9f773886e18int);
        assert(table_exponent(-244) == 694);
        assert(0xaecc49914078536d58fae9f773886e18int * 353737464016668451855824972300304366432911374927310085530570894138105520257533012294512947342224925759920017160034290220932919252862236536572027034708298742771148681640625int < 0x400000000000000000000000000000000000000000000000000000000000000000000000000000000000000000000000000000000000000000000000000000000000000000000000000000000000000000000000000000int && 0x400000000000000000000000000000000000000000000000000000000000000000000000000000000000000000000000000000000000000000000000000000000000000000000000000000000000000000000000000000int < 0xaecc49914078536d58fae9f773886e19int * 353737464016668451855824972300304366432911374927310085530570894138105520257533012294512947342224925759920017160034290220932919252862236536572027034708298742771148681640625int);
    } else if q == -243 {
        assert(entry_value(-243) == 0xda7f5bf590966848af39a475506a899eint);
        assert(table_exponent(-243) == 692);
        assert(0xda7f5bf590966848af39a475506a899eint * 70747492803333690371164994460060873286582274985462017106114178827621104051506602458902589468444985151984003432006858044186583850572447307314405406941659748554229736328125int < 0x100000000000000000000000000000000000000000000000000000000000000000000000000000000000000000000000000000000000000000000000000000000000000000000000000000000000000000000000000000int && 0x100000000000000000000000000000000000000000000000000000000000000000000000000000000000000000000000000000000000000000000000000000000000000000000000000000000000000000000000000000int < 0xda7f5bf590966848af39a475506a899fint * 70747492803333690371164994460060873286582274985462017106114178827621104051506602458902589468444985151984003432006858044186583850572447307314405406941659748554229736328125int);
    } else if q == -242 {
        assert(entry_value(-242) == 0x888f99797a5e012d6d8406c952429603int);
        assert(table_exponent(-242) == 689);
        assert(0x888f99797a5e012d6d8406c952429603int * 14149498560666738074232998892012174657316454997092403421222835765524220810301320491780517893688997030396800686401371608837316770114489461462881081388331949710845947265625int < 0x20000000000000000000000000000000000000000000000000000000000000000000000000000000000000000000000000000000000000000000000000000000000000000000000000000000000000000000000000000int && 0x20000000000000000000000000000000000000000000000000000000000000000000000000000000000000000000000000000000000000000000000000000000000000000000000000000000000000000000000000000int < 0x888f99797a5e012d6d8406c952429604int * 14149498560666738074232998892012174657316454997092403421222835765524220810301320491780517893688997030396800686401371608837316770114489461462881081388331949710845947265625int);
    } else if q == -241 {
        assert(entry_value(-241) == 0xaab37fd7d8f58178c8e5087ba6d33b83int);
        assert(table_exponent(-241) == 687);
        assert(0xaab37fd7d8f58178c8e5087ba6d33b83int * 2829899712133347614846599778402434931463290999418480684244567153104844162060264098356103578737799406079360137280274321767463354022897892292576216277666389942169189453125int < 0x8000000000000000000000000000000000000000000000000000000000000000000000000000000000000000000000000000000000000000000000000000000000000000000000000000000000000000000000000000int && 0x8000000000000000000000000000000000000000000000000000000000000000000000000000000000000000000000000000000000000000000000000000000000000000000000000000000000000000000000000000int < 0xaab37fd7d8f58178c8e5087ba6d33b84int * 2829899712133347614846599778402434931463290999418480684244567153104844162060264098356103578737799406079360137280274321767463354022897892292576216277666389942169189453125int);
    } else if q == -240 {
        assert(entry_value(-240) == 0xd5605fcdcf32e1d6fb1e4a9a90880a64int);
        assert(table_exponent(-240) == 685);
        assert(0xd5605fcdcf32e1d6fb1e4a9a90880a64int * 565979942426669522969319955680486986292658199883696136848913430620968832412052819671220715747559881215872027456054864353492670804579578458515243255533277988433837890625int < 0x2000000000000000000000000000000000000000000000000000000000000000000000000000000000000000000000000000000000000000000000000000000000000000000000000000000000000000000000000000int && 0x2000000000000000000000000000000000000000000000000000000000000000000000000000000000000000000000000000000000000000000000000000000000000000000000000000000000000000000000000000int < 0xd5605fcdcf32e1d6fb1e4a9a90880a65int * 565979942426669522969319955680486986292658199883696136848913430620968832412052819671220715747559881215872027456054864353492670804579578458515243255533277988433837890625int);
    } else if q == -239 {
        assert(entry_value(-239) == 0x855c3be0a17fcd265cf2eea09a55067fint);
        assert(table_exponent(-239) == 682);
        assert(0x855c3be0a17fcd265cf2eea09a55067fint * 113195988485333904593863991136097397258531639976739227369782686124193766482410563934244143149511976243174405491210972870698534160915915691703048651106655597686767578125int < 0x400000000000000000000000000000000000000000000000000000000000000000000000000000000000000000000000000000000000000000000000000000000000000000000000000000000000000000000000000int && 0x400000000000000000000000000000000000000000000000000000000000000000000000000000000000000000000000000000000000000000000000000000000000000000000000000000000000000000000000000int < 0x855c3be0a17fcd265cf2eea09a550680int * 113195988485333904593863991136097397258531639976739227369782686124193766482410563934244143149511976243174405491210972870698534160915915691703048651106655597686767578125int);
    } else if q == -238 {
        assert(entry_value(-238) == 0xa6b34ad8c9dfc06ff42faa48c0ea481eint);
        assert(table_exponent(-238) == 680);
        assert(0xa6b34ad8c9dfc06ff42faa48c0ea481eint * 22639197697066780918772798227219479451706327995347845473956537224838753296482112786848828629902395248634881098242194574139706832183183138340609730221331119537353515625int < 0x100000000000000000000000000000000000000000000000000000000000000000000000000000000000000000000000000000000000000000000000000000000000000000000000000000000000000000000000000int && 0x100000000000000000000000000000000000000000000000000000000000000000000000000000000000000000000000000000000000000000000000000000000000000000000000000000000000000000000000000int < 0xa6b34ad8c9dfc06ff42faa48c0ea481fint * 22639197697066780918772798227219479451706327995347845473956537224838753296482112786848828629902395248634881098242194574139706832183183138340609730221331119537353515625int);
    } else if q == -237 {
        assert(entry_value(-237) == 0xd0601d8efc57b08bf13b94daf124da26int);
        assert(table_exponent(-237) == 678);
        assert(0xd0601d8efc57b08bf13b94daf124da26int * 4527839539413356183754559645443895890341265599069569094791307444967750659296422557369765725980479049726976219648438914827941366436636627668121946044266223907470703125int < 0x40000000000000000000000000000000000000000000000000000000000000000000000000000000000000000000000000000000000000000000000000000000000000000000000000000000000000000000000000int && 0x40000000000000000000000000000000000000000000000000000000000000000000000000000000000000000000000000000000000000000000000000000000000000000000000000000000000000000000000000int < 0xd0601d8efc57b08bf13b94daf124da27int * 4527839539413356183754559645443895890341265599069569094791307444967750659296422557369765725980479049726976219648438914827941366436636627668121946044266223907470703125int);
    } else if q == -236 {
        assert(entry_value(-236) == 0x823c12795db6ce5776c53d08d6b70858int);
        assert(table_exponent(-236) == 675);
        assert(0x823c12795db6ce5776c53d08d6b70858int * 905567907882671236750911929088779178068253119813913818958261488993550131859284511473953145196095809945395243929687782965588273287327325533624389208853244781494140625int < 0x8000000000000000000000000000000000000000000000000000000000000000000000000000000000000000000000000000000000000000000000000000000000000000000000000000000000000000000000000int && 0x8000000000000000000000000000000000000000000000000000000000000000000000000000000000000000000000000000000000000000000000000000000000000000000000000000000000000000000000000int < 0x823c12795db6ce5776c53d08d6b70859int * 905567907882671236750911929088779178068253119813913818958261488993550131859284511473953145196095809945395243929687782965588273287327325533624389208853244781494140625int);
    } else if q == -235 {
        assert(entry_value(-235) == 0xa2cb1717b52481ed54768c4b0c64ca6eint);
        assert(table_exponent(-235) == 673);
        assert(0xa2cb1717b52481ed54768c4b0c64ca6eint * 181113581576534247350182385817755835613650623962782763791652297798710026371856902294790629039219161989079048785937556593117654657465465106724877841770648956298828125int < 0x2000000000000000000000000000000000000000000000000000000000000000000000000000000000000000000000000000000000000000000000000000000000000000000000000000000000000000000000000int && 0x2000000000000000000000000000000000000000000000000000000000000000000000000000000000000000000000000000000000000000000000000000000000000000000000000000000000000000000000000int < 0xa2cb1717b52481ed54768c4b0c64ca6fint * 181113581576534247350182385817755835613650623962782763791652297798710026371856902294790629039219161989079048785937556593117654657465465106724877841770648956298828125int);
    } else if q == -234 {
        assert(entry_value(-234) == 0xcb7ddcdda26da268a9942f5dcf7dfd09int);
        assert(table_exponent(-234) == 671);
        assert(0xcb7ddcdda26da268a9942f5dcf7dfd09int * 36222716315306849470036477163551167122730124792556552758330459559742005274371380458958125807843832397815809757187511318623530931493093021344975568354129791259765625int < 0x800000000000000000000000000000000000000000000000000000000000000000000000000000000000000000000000000000000000000000000000000000000000000000000000000000000000000000000000int && 0x800000000000000000000000000000000000000000000000000000000000000000000000000000000000000000000000000000000000000000000000000000000000000000000000000000000000000000000000int < 0xcb7ddcdda26da268a9942f5dcf7dfd0aint * 36222716315306849470036477163551167122730124792556552758330459559742005274371380458958125807843832397815809757187511318623530931493093021344975568354129791259765625int);
    } else if q == -233 {
        assert(entry_value(-233) == 0xfe5d54150b090b02d3f93b35435d7c4cint);
        assert(table_exponent(-233) == 669);
        assert(0xfe5d54150b090b02d3f93b35435d7c4cint * 7244543263061369894007295432710233424546024958511310551666091911948401054874276091791625161568766479563161951437502263724706186298618604268995113670825958251953125int < 0x200000000000000000000000000000000000000000000000000000000000000000000000000000000000000000000000000000000000000000000000000000000000000000000000000000000000000000000000int && 0x200000000000000000000000000000000000000000000000000000000000000000000000000000000000000000000000000000000000000000000000000000000000000000000000000000000000000000000000int < 0xfe5d54150b090b02d3f93b35435d7c4dint * 7244543263061369894007295432710233424546024958511310551666091911948401054874276091791625161568766479563161951437502263724706186298618604268995113670825958251953125int);
    } else if q == -232 {
        assert(entry_value(-232) == 0x9efa548d26e5a6e1c47bc5014a1a6dafint);
        assert(table_exponent(-232) == 666);
        assert(0x9efa548d26e5a6e1c47bc5014a1a6dafint * 1448908652612273978801459086542046684909204991702262110333218382389680210974855218358325032313753295912632390287500452744941237259723720853799022734165191650390625int < 0x40000000000000000000000000000000000000000000000000000000000000000000000000000000000000000000000000000000000000000000000000000000000000000000000000000000000000000000000int && 0x40000000000000000000000000000000000000000000000000000000000000000000000000000000000000000000000000000000000000000000000000000000000000000000000000000000000000000000000int < 0x9efa548d26e5a6e1c47bc5014a1a6db0int * 1448908652612273978801459086542046684909204991702262110333218382389680210974855218358325032313753295912632390287500452744941237259723720853799022734165191650390625int);
    } else if q == -231 {
        assert(entry_value(-231) == 0xc6b8e9b0709f109a359ab6419ca1091bint);
        assert(table_exponent(-231) == 664);
        assert(0xc6b8e9b0709f109a359ab6419ca1091bint * 289781730522454795760291817308409336981840998340452422066643676477936042194971043671665006462750659182526478057500090548988247451944744170759804546833038330078125int < 0x10000000000000000000000000000000000000000000000000000000000000000000000000000000000000000000000000000000000000000000000000000000000000000000000000000000000000000000000int && 0x10000000000000000000000000000000000000000000000000000000000000000000000000000000000000000000000000000000000000000000000000000000000000000000000000000000000000000000000int < 0xc6b8e9b0709f109a359ab6419ca1091cint * 289781730522454795760291817308409336981840998340452422066643676477936042194971043671665006462750659182526478057500090548988247451944744170759804546833038330078125int);
    } else if q == -230 {
        assert(entry_value(-230) == 0xf867241c8cc6d4c0c30163d203c94b62int);
        assert(table_exponent(-230) == 662);
        assert(0xf867241c8cc6d4c0c30163d203c94b62int * 57956346104490959152058363461681867396368199668090484413328735295587208438994208734333001292550131836505295611500018109797649490388948834151960909366607666015625int < 0x4000000000000000000000000000000000000000000000000000000000000000000000000000000000000000000000000000000000000000000000000000000000000000000000000000000000000000000000int && 0x4000000000000000000000000000000000000000000000000000000000000000000000000000000000000000000000000000000000000000000000000000000000000000000000000000000000000000000000int < 0xf867241c8cc6d4c0c30163d203c94b63int * 57956346104490959152058363461681867396368199668090484413328735295587208438994208734333001292550131836505295611500018109797649490388948834151960909366607666015625int);
    } else if q == -229 {
        assert(entry_value(-229) == 0x9b407691d7fc44f879e0de63425dcf1dint);
        assert(table_exponent(-229) == 659);
        assert(0x9b407691d7fc44f879e0de63425dcf1dint * 11591269220898191830411672692336373479273639933618096882665747059117441687798841746866600258510026367301059122300003621959529898077789766830392181873321533203125int < 0x800000000000000000000000000000000000000000000000000000000000000000000000000000000000000000000000000000000000000000000000000000000000000000000000000000000000000000000int && 0x800000000000000000000000000000000000000000000000000000000000000000000000000000000000000000000000000000000000000000000000000000000000000000000000000000000000000000000int < 0x9b407691d7fc44f879e0de63425dcf1eint * 11591269220898191830411672692336373479273639933618096882665747059117441687798841746866600258510026367301059122300003621959529898077789766830392181873321533203125int);
    } else if q == -228 {
        assert(entry_value(-228) == 0xc21094364dfb5636985915fc12f542e4int);
        assert(table_exponent(-228) == 657);
        assert(0xc21094364dfb5636985915fc12f542e4int * 2318253844179638366082334538467274695854727986723619376533149411823488337559768349373320051702005273460211824460000724391905979615557953366078436374664306640625int < 0x200000000000000000000000000000000000000000000000000000000000000000000000000000000000000000000000000000000000000000000000000000000000000000000000000000000000000000000int && 0x200000000000000000000000000000000000000000000000000000000000000000000000000000000000000000000000000000000000000000000000000000000000000000000000000000000000000000000int < 0xc21094364dfb5636985915fc12f542e5int * 2318253844179638366082334538467274695854727986723619376533149411823488337559768349373320051702005273460211824460000724391905979615557953366078436374664306640625int);
    } else if q == -227 {
        assert(entry_value(-227) == 0xf294b943e17a2bc43e6f5b7b17b2939dint);
        assert(table_exponent(-227) == 655);
        assert(0xf294b943e17a2bc43e6f5b7b17b2939dint * 463650768835927673216466907693454939170945597344723875306629882364697667511953669874664010340401054692042364892000144878381195923111590673215687274932861328125int < 0x80000000000000000000000000000000000000000000000000000000000000000000000000000000000000000000000000000000000000000000000000000000000000000000000000000000000000000000int && 0x80000000000000000000000000000000000000000000000000000000000000000000000000000000000000000000000000000000000000000000000000000000000000000000000000000000000000000000int < 0xf294b943e17a2bc43e6f5b7b17b2939eint * 463650768835927673216466907693454939170945597344723875306629882364697667511953669874664010340401054692042364892000144878381195923111590673215687274932861328125int);
    } else if q == -226 {
        assert(entry_value(-226) == 0x979cf3ca6cec5b5aa705992ceecf9c42int);
        assert(table_exponent(-226) == 652);
        assert(0x979cf3ca6cec5b5aa705992ceecf9c42int * 92730153767185534643293381538690987834189119468944775061325976472939533502390733974932802068080210938408472978400028975676239184622318134643137454986572265625int < 0x10000000000000000000000000000000000000000000000000000000000000000000000000000000000000000000000000000000000000000000000000000000000000000000000000000000000000000000int && 0x10000000000000000000000000000000000000000000000000000000000000000000000000000000000000000000000000000000000000000000000000000000000000000000000000000000000000000000int < 0x979cf3ca6cec5b5aa705992ceecf9c43int * 92730153767185534643293381538690987834189119468944775061325976472939533502390733974932802068080210938408472978400028975676239184622318134643137454986572265625int);
    } else if q == -225 {
        assert(entry_value(-225) == 0xbd8430bd0827723150c6ff782a838353int);
        assert(table_exponent(-225) == 650);
        assert(0xbd8430bd0827723150c6ff782a838353int * 18546030753437106928658676307738197566837823893788955012265195294587906700478146794986560413616042187681694595680005795135247836924463626928627490997314453125int < 0x4000000000000000000000000000000000000000000000000000000000000000000000000000000000000000000000000000000000000000000000000000000000000000000000000000000000000000000int && 0x4000000000000000000000000000000000000000000000000000000000000000000000000000000000000000000000000000000000000000000000000000000000000000000000000000000000000000000int < 0xbd8430bd0827723150c6ff782a838354int * 18546030753437106928658676307738197566837823893788955012265195294587906700478146794986560413616042187681694595680005795135247836924463626928627490997314453125int);
    } else if q == -224 {
        assert(entry_value(-224) == 0xece53cec4a314ebda4f8bf5635246428int);
        assert(table_exponent(-224) == 648);
        assert(0xece53cec4a314ebda4f8bf5635246428int * 3709206150687421385731735261547639513367564778757791002453039058917581340095629358997312082723208437536338919136001159027049567384892725385725498199462890625int < 0x1000000000000000000000000000000000000000000000000000000000000000000000000000000000000000000000000000000000000000000000000000000000000000000000000000000000000000000int && 0x1000000000000000000000000000000000000000000000000000000000000000000000000000000000000000000000000000000000000000000000000000000000000000000000000000000000000000000int < 0xece53cec4a314ebda4f8bf5635246429int * 3709206150687421385731735261547639513367564778757791002453039058917581340095629358997312082723208437536338919136001159027049567384892725385725498199462890625int);
    } else if q == -223 {
        assert(entry_value(-223) == 0x940f4613ae5ed136871b7795e136be99int);
        assert(table_exponent(-223) == 645);
        assert(0x940f4613ae5ed136871b7795e136be99int * 741841230137484277146347052309527902673512955751558200490607811783516268019125871799462416544641687507267783827200231805409913476978545077145099639892578125int < 0x200000000000000000000000000000000000000000000000000000000000000000000000000000000000000000000000000000000000000000000000000000000000000000000000000000000000000000int && 0x200000000000000000000000000000000000000000000000000000000000000000000000000000000000000000000000000000000000000000000000000000000000000000000000000000000000000000int < 0x940f4613ae5ed136871b7795e136be9aint * 741841230137484277146347052309527902673512955751558200490607811783516268019125871799462416544641687507267783827200231805409913476978545077145099639892578125int);
    }
}

/// A part of the entries of the table, each held against its power of five.
proof fn lemma_entries_4(q: int)
    requires
        -222 <= q <= -193,
    ensures
        approximates(q),
{
    lemma_pow5_values_4();
    lemma_pow5_values_5();
    lemma_pow2_values_3();
    lemma_pow2_values_14();
    lemma_pow2_values_15();
    lemma_pow2_values_16();
    if q == -222 {
        assert(entry_value(-222) == 0xb913179899f6858428e2557b59846e3fint);
        assert(table_exponent(-222) == 643);
        assert(0xb913179899f6858428e2557b59846e3fint * 148368246027496855429269410461905580534702591150311640098121562356703253603825174359892483308928337501453556765440046361081982695395709015429019927978515625int < 0x80000000000000000000000000000000000000000000000000000000000000000000000000000000000000000000000000000000000000000000000000000000000000000000000000000000000000000int && 0x80000000000000000000000000000000000000000000000000000000000000000000000000000000000000000000000000000000000000000000000000000000000000000000000000000000000000000int < 0xb913179899f6858428e2557b59846e40int * 148368246027496855429269410461905580534702591150311640098121562356703253603825174359892483308928337501453556765440046361081982695395709015429019927978515625int);
    } else if q == -221 {
        assert(entry_value(-221) == 0xe757dd7ec07426e5331aeada2fe589cfint);
        assert(table_exponent(-221) == 641);
        assert(0xe757dd7ec07426e5331aeada2fe589cfint * 29673649205499371085853882092381116106940518230062328019624312471340650720765034871978496661785667500290711353088009272216396539079141803085803985595703125int < 0x20000000000000000000000000000000000000000000000000000000000000000000000000000000000000000000000000000000000000000000000000000000000000000000000000000000000000000int && 0x20000000000000000000000000000000000000000000000000000000000000000000000000000000000000000000000000000000000000000000000000000000000000000000000000000000000000000int < 0xe757dd7ec07426e5331aeada2fe589d0int * 29673649205499371085853882092381116106940518230062328019624312471340650720765034871978496661785667500290711353088009272216396539079141803085803985595703125int);
    } else if q == -220 {
        assert(entry_value(-220) == 0x9096ea6f3848984f3ff0d2c85def7621int);
        assert(table_exponent(-220) == 638);
        assert(0x9096ea6f3848984f3ff0d2c85def7621int * 5934729841099874217170776418476223221388103646012465603924862494268130144153006974395699332357133500058142270617601854443279307815828360617160797119140625int < 0x4000000000000000000000000000000000000000000000000000000000000000000000000000000000000000000000000000000000000000000000000000000000000000000000000000000000000000int && 0x4000000000000000000000000000000000000000000000000000000000000000000000000000000000000000000000000000000000000000000000000000000000000000000000000000000000000000int < 0x9096ea6f3848984f3ff0d2c85def7622int * 5934729841099874217170776418476223221388103646012465603924862494268130144153006974395699332357133500058142270617601854443279307815828360617160797119140625int);
    } else if q == -219 {
        assert(entry_value(-219) == 0xb4bca50b065abe630fed077a756b53a9int);
        assert(table_exponent(-219) == 636);
        assert(0xb4bca50b065abe630fed077a756b53a9int * 1186945968219974843434155283695244644277620729202493120784972498853626028830601394879139866471426700011628454123520370888655861563165672123432159423828125int < 0x1000000000000000000000000000000000000000000000000000000000000000000000000000000000000000000000000000000000000000000000000000000000000000000000000000000000000000int && 0x1000000000000000000000000000000000000000000000000000000000000000000000000000000000000000000000000000000000000000000000000000000000000000000000000000000000000000int < 0xb4bca50b065abe630fed077a756b53aaint * 1186945968219974843434155283695244644277620729202493120784972498853626028830601394879139866471426700011628454123520370888655861563165672123432159423828125int);
    } else if q == -218 {
        assert(entry_value(-218) == 0xe1ebce4dc7f16dfbd3e8495912c62894int);
        assert(table_exponent(-218) == 634);
        assert(0xe1ebce4dc7f16dfbd3e8495912c62894int * 237389193643994968686831056739048928855524145840498624156994499770725205766120278975827973294285340002325690824704074177731172312633134424686431884765625int < 0x400000000000000000000000000000000000000000000000000000000000000000000000000000000000000000000000000000000000000000000000000000000000000000000000000000000000000int && 0x400000000000000000000000000000000000000000000000000000000000000000000000000000000000000000000000000000000000000000000000000000000000000000000000000000000000000int < 0xe1ebce4dc7f16dfbd3e8495912c62895int * 237389193643994968686831056739048928855524145840498624156994499770725205766120278975827973294285340002325690824704074177731172312633134424686431884765625int);
    } else if q == -217 {
        assert(entry_value(-217) == 0x8d3360f09cf6e4bd64712dd7abbbd95cint);
        assert(table_exponent(-217) == 631);
        assert(0x8d3360f09cf6e4bd64712dd7abbbd95cint * 47477838728798993737366211347809785771104829168099724831398899954145041153224055795165594658857068000465138164940814835546234462526626884937286376953125int < 0x80000000000000000000000000000000000000000000000000000000000000000000000000000000000000000000000000000000000000000000000000000000000000000000000000000000000000int && 0x80000000000000000000000000000000000000000000000000000000000000000000000000000000000000000000000000000000000000000000000000000000000000000000000000000000000000int < 0x8d3360f09cf6e4bd64712dd7abbbd95dint * 47477838728798993737366211347809785771104829168099724831398899954145041153224055795165594658857068000465138164940814835546234462526626884937286376953125int);
    } else if q == -216 {
        assert(entry_value(-216) == 0xb080392cc4349decbd8d794d96aacfb3int);
        assert(table_exponent(-216) == 629);
        assert(0xb080392cc4349decbd8d794d96aacfb3int * 9495567745759798747473242269561957154220965833619944966279779990829008230644811159033118931771413600093027632988162967109246892505325376987457275390625int < 0x20000000000000000000000000000000000000000000000000000000000000000000000000000000000000000000000000000000000000000000000000000000000000000000000000000000000000int && 0x20000000000000000000000000000000000000000000000000000000000000000000000000000000000000000000000000000000000000000000000000000000000000000000000000000000000000int < 0xb080392cc4349decbd8d794d96aacfb4int * 9495567745759798747473242269561957154220965833619944966279779990829008230644811159033118931771413600093027632988162967109246892505325376987457275390625int);
    } else if q == -215 {
        assert(entry_value(-215) == 0xdca04777f541c567ecf0d7a0fc5583a0int);
        assert(table_exponent(-215) == 627);
        assert(0xdca04777f541c567ecf0d7a0fc5583a0int * 1899113549151959749494648453912391430844193166723988993255955998165801646128962231806623786354282720018605526597632593421849378501065075397491455078125int < 0x8000000000000000000000000000000000000000000000000000000000000000000000000000000000000000000000000000000000000000000000000000000000000000000000000000000000000int && 0x8000000000000000000000000000000000000000000000000000000000000000000000000000000000000000000000000000000000000000000000000000000000000000000000000000000000000int < 0xdca04777f541c567ecf0d7a0fc5583a1int * 1899113549151959749494648453912391430844193166723988993255955998165801646128962231806623786354282720018605526597632593421849378501065075397491455078125int);
    } else if q == -214 {
        assert(entry_value(-214) == 0x89e42caaf9491b60f41686c49db57244int);
        assert(table_exponent(-214) == 624);
        assert(0x89e42caaf9491b60f41686c49db57244int * 379822709830391949898929690782478286168838633344797798651191199633160329225792446361324757270856544003721105319526518684369875700213015079498291015625int < 0x1000000000000000000000000000000000000000000000000000000000000000000000000000000000000000000000000000000000000000000000000000000000000000000000000000000000000int && 0x1000000000000000000000000000000000000000000000000000000000000000000000000000000000000000000000000000000000000000000000000000000000000000000000000000000000000int < 0x89e42caaf9491b60f41686c49db57245int * 379822709830391949898929690782478286168838633344797798651191199633160329225792446361324757270856544003721105319526518684369875700213015079498291015625int);
    } else if q == -213 {
        assert(entry_value(-213) == 0xac5d37d5b79b6239311c2875c522ced5int);
        assert(table_exponent(-213) == 622);
        assert(0xac5d37d5b79b6239311c2875c522ced5int * 75964541966078389979785938156495657233767726668959559730238239926632065845158489272264951454171308800744221063905303736873975140042603015899658203125int < 0x400000000000000000000000000000000000000000000000000000000000000000000000000000000000000000000000000000000000000000000000000000000000000000000000000000000000int && 0x400000000000000000000000000000000000000000000000000000000000000000000000000000000000000000000000000000000000000000000000000000000000000000000000000000000000int < 0xac5d37d5b79b6239311c2875c522ced6int * 75964541966078389979785938156495657233767726668959559730238239926632065845158489272264951454171308800744221063905303736873975140042603015899658203125int);
    } else if q == -212 {
        assert(entry_value(-212) == 0xd77485cb25823ac77d633293366b828bint);
        assert(table_exponent(-212) == 620);
        assert(0xd77485cb25823ac77d633293366b828bint * 15192908393215677995957187631299131446753545333791911946047647985326413169031697854452990290834261760148844212781060747374795028008520603179931640625int < 0x100000000000000000000000000000000000000000000000000000000000000000000000000000000000000000000000000000000000000000000000000000000000000000000000000000000000int && 0x100000000000000000000000000000000000000000000000000000000000000000000000000000000000000000000000000000000000000000000000000000000000000000000000000000000000int < 0xd77485cb25823ac77d633293366b828cint * 15192908393215677995957187631299131446753545333791911946047647985326413169031697854452990290834261760148844212781060747374795028008520603179931640625int);
    } else if q == -211 {
        assert(entry_value(-211) == 0x86a8d39ef77164bcae5dff9c02033197int);
        assert(table_exponent(-211) == 617);
        assert(0x86a8d39ef77164bcae5dff9c02033197int * 3038581678643135599191437526259826289350709066758382389209529597065282633806339570890598058166852352029768842556212149474959005601704120635986328125int < 0x20000000000000000000000000000000000000000000000000000000000000000000000000000000000000000000000000000000000000000000000000000000000000000000000000000000000int && 0x20000000000000000000000000000000000000000000000000000000000000000000000000000000000000000000000000000000000000000000000000000000000000000000000000000000000int < 0x86a8d39ef77164bcae5dff9c02033198int * 3038581678643135599191437526259826289350709066758382389209529597065282633806339570890598058166852352029768842556212149474959005601704120635986328125int);
    } else if q == -210 {
        assert(entry_value(-210) == 0xa8530886b54dbdebd9f57f830283fdfcint);
        assert(table_exponent(-210) == 615);
        assert(0xa8530886b54dbdebd9f57f830283fdfcint * 607716335728627119838287505251965257870141813351676477841905919413056526761267914178119611633370470405953768511242429894991801120340824127197265625int < 0x8000000000000000000000000000000000000000000000000000000000000000000000000000000000000000000000000000000000000000000000000000000000000000000000000000000000int && 0x8000000000000000000000000000000000000000000000000000000000000000000000000000000000000000000000000000000000000000000000000000000000000000000000000000000000int < 0xa8530886b54dbdebd9f57f830283fdfdint * 607716335728627119838287505251965257870141813351676477841905919413056526761267914178119611633370470405953768511242429894991801120340824127197265625int);
    } else if q == -209 {
        assert(entry_value(-209) == 0xd267caa862a12d66d072df63c324fd7bint);
        assert(table_exponent(-209) == 613);
        assert(0xd267caa862a12d66d072df63c324fd7bint * 121543267145725423967657501050393051574028362670335295568381183882611305352253582835623922326674094081190753702248485978998360224068164825439453125int < 0x2000000000000000000000000000000000000000000000000000000000000000000000000000000000000000000000000000000000000000000000000000000000000000000000000000000000int && 0x2000000000000000000000000000000000000000000000000000000000000000000000000000000000000000000000000000000000000000000000000000000000000000000000000000000000int < 0xd267caa862a12d66d072df63c324fd7cint * 121543267145725423967657501050393051574028362670335295568381183882611305352253582835623922326674094081190753702248485978998360224068164825439453125int);
    } else if q == -208 {
        assert(entry_value(-208) == 0x8380dea93da4bc604247cb9e59f71e6dint);
        assert(table_exponent(-208) == 610);
        assert(0x8380dea93da4bc604247cb9e59f71e6dint * 24308653429145084793531500210078610314805672534067059113676236776522261070450716567124784465334818816238150740449697195799672044813632965087890625int < 0x400000000000000000000000000000000000000000000000000000000000000000000000000000000000000000000000000000000000000000000000000000000000000000000000000000000int && 0x400000000000000000000000000000000000000000000000000000000000000000000000000000000000000000000000000000000000000000000000000000000000000000000000000000000int < 0x8380dea93da4bc604247cb9e59f71e6eint * 24308653429145084793531500210078610314805672534067059113676236776522261070450716567124784465334818816238150740449697195799672044813632965087890625int);
    } else if q == -207 {
        assert(entry_value(-207) == 0xa46116538d0deb7852d9be85f074e608int);
        assert(table_exponent(-207) == 608);
        assert(0xa46116538d0deb7852d9be85f074e608int * 4861730685829016958706300042015722062961134506813411822735247355304452214090143313424956893066963763247630148089939439159934408962726593017578125int < 0x100000000000000000000000000000000000000000000000000000000000000000000000000000000000000000000000000000000000000000000000000000000000000000000000000000000int && 0x100000000000000000000000000000000000000000000000000000000000000000000000000000000000000000000000000000000000000000000000000000000000000000000000000000000int < 0xa46116538d0deb7852d9be85f074e609int * 4861730685829016958706300042015722062961134506813411822735247355304452214090143313424956893066963763247630148089939439159934408962726593017578125int);
    } else if q == -206 {
        assert(entry_value(-206) == 0xcd795be87051665667902e276c921f8bint);
        assert(table_exponent(-206) == 606);
        assert(0xcd795be87051665667902e276c921f8bint * 972346137165803391741260008403144412592226901362682364547049471060890442818028662684991378613392752649526029617987887831986881792545318603515625int < 0x40000000000000000000000000000000000000000000000000000000000000000000000000000000000000000000000000000000000000000000000000000000000000000000000000000000int && 0x40000000000000000000000000000000000000000000000000000000000000000000000000000000000000000000000000000000000000000000000000000000000000000000000000000000int < 0xcd795be87051665667902e276c921f8cint * 972346137165803391741260008403144412592226901362682364547049471060890442818028662684991378613392752649526029617987887831986881792545318603515625int);
    } else if q == -205 {
        assert(entry_value(-205) == 0x806bd9714632dff600ba1cd8a3db53b6int);
        assert(table_exponent(-205) == 603);
        assert(0x806bd9714632dff600ba1cd8a3db53b6int * 194469227433160678348252001680628882518445380272536472909409894212178088563605732536998275722678550529905205923597577566397376358509063720703125int < 0x8000000000000000000000000000000000000000000000000000000000000000000000000000000000000000000000000000000000000000000000000000000000000000000000000000000int && 0x8000000000000000000000000000000000000000000000000000000000000000000000000000000000000000000000000000000000000000000000000000000000000000000000000000000int < 0x806bd9714632dff600ba1cd8a3db53b7int * 194469227433160678348252001680628882518445380272536472909409894212178088563605732536998275722678550529905205923597577566397376358509063720703125int);
    } else if q == -204 {
        assert(entry_value(-204) == 0xa086cfcd97bf97f380e8a40eccd228a4int);
        assert(table_exponent(-204) == 601);
        assert(0xa086cfcd97bf97f380e8a40eccd228a4int * 38893845486632135669650400336125776503689076054507294581881978842435617712721146507399655144535710105981041184719515513279475271701812744140625int < 0x2000000000000000000000000000000000000000000000000000000000000000000000000000000000000000000000000000000000000000000000000000000000000000000000000000000int && 0x2000000000000000000000000000000000000000000000000000000000000000000000000000000000000000000000000000000000000000000000000000000000000000000000000000000int < 0xa086cfcd97bf97f380e8a40eccd228a5int * 38893845486632135669650400336125776503689076054507294581881978842435617712721146507399655144535710105981041184719515513279475271701812744140625int);
    } else if q == -203 {
        assert(entry_value(-203) == 0xc8a883c0fdaf7df06122cd128006b2cdint);
        assert(table_exponent(-203) == 599);
        assert(0xc8a883c0fdaf7df06122cd128006b2cdint * 7778769097326427133930080067225155300737815210901458916376395768487123542544229301479931028907142021196208236943903102655895054340362548828125int < 0x800000000000000000000000000000000000000000000000000000000000000000000000000000000000000000000000000000000000000000000000000000000000000000000000000000int && 0x800000000000000000000000000000000000000000000000000000000000000000000000000000000000000000000000000000000000000000000000000000000000000000000000000000int < 0xc8a883c0fdaf7df06122cd128006b2ceint * 7778769097326427133930080067225155300737815210901458916376395768487123542544229301479931028907142021196208236943903102655895054340362548828125int);
    } else if q == -202 {
        assert(entry_value(-202) == 0xfad2a4b13d1b5d6c796b805720085f81int);
        assert(table_exponent(-202) == 597);
        assert(0xfad2a4b13d1b5d6c796b805720085f81int * 1555753819465285426786016013445031060147563042180291783275279153697424708508845860295986205781428404239241647388780620531179010868072509765625int < 0x200000000000000000000000000000000000000000000000000000000000000000000000000000000000000000000000000000000000000000000000000000000000000000000000000000int && 0x200000000000000000000000000000000000000000000000000000000000000000000000000000000000000000000000000000000000000000000000000000000000000000000000000000int < 0xfad2a4b13d1b5d6c796b805720085f82int * 1555753819465285426786016013445031060147563042180291783275279153697424708508845860295986205781428404239241647388780620531179010868072509765625int);
    } else if q == -201 {
        assert(entry_value(-201) == 0x9cc3a6eec6311a63cbe3303674053bb0int);
        assert(table_exponent(-201) == 594);
        assert(0x9cc3a6eec6311a63cbe3303674053bb0int * 311150763893057085357203202689006212029512608436058356655055830739484941701769172059197241156285680847848329477756124106235802173614501953125int < 0x40000000000000000000000000000000000000000000000000000000000000000000000000000000000000000000000000000000000000000000000000000000000000000000000000000int && 0x40000000000000000000000000000000000000000000000000000000000000000000000000000000000000000000000000000000000000000000000000000000000000000000000000000int < 0x9cc3a6eec6311a63cbe3303674053bb1int * 311150763893057085357203202689006212029512608436058356655055830739484941701769172059197241156285680847848329477756124106235802173614501953125int);
    } else if q == -200 {
        assert(entry_value(-200) == 0xc3f490aa77bd60fcbedbfc4411068a9cint);
        assert(table_exponent(-200) == 592);
        assert(0xc3f490aa77bd60fcbedbfc4411068a9cint * 62230152778611417071440640537801242405902521687211671331011166147896988340353834411839448231257136169569665895551224821247160434722900390625int < 0x10000000000000000000000000000000000000000000000000000000000000000000000000000000000000000000000000000000000000000000000000000000000000000000000000000int && 0x10000000000000000000000000000000000000000000000000000000000000000000000000000000000000000000000000000000000000000000000000000000000000000000000000000int < 0xc3f490aa77bd60fcbedbfc4411068a9dint * 62230152778611417071440640537801242405902521687211671331011166147896988340353834411839448231257136169569665895551224821247160434722900390625int);
    } else if q == -199 {
        assert(entry_value(-199) == 0xf4f1b4d515acb93bee92fb5515482d44int);
        assert(table_exponent(-199) == 590);
        assert(0xf4f1b4d515acb93bee92fb5515482d44int * 12446030555722283414288128107560248481180504337442334266202233229579397668070766882367889646251427233913933179110244964249432086944580078125int < 0x4000000000000000000000000000000000000000000000000000000000000000000000000000000000000000000000000000000000000000000000000000000000000000000000000000int && 0x4000000000000000000000000000000000000000000000000000000000000000000000000000000000000000000000000000000000000000000000000000000000000000000000000000int < 0xf4f1b4d515acb93bee92fb5515482d45int * 12446030555722283414288128107560248481180504337442334266202233229579397668070766882367889646251427233913933179110244964249432086944580078125int);
    } else if q == -198 {
        assert(entry_value(-198) == 0x991711052d8bf3c5751bdd152d4d1c4aint);
        assert(table_exponent(-198) == 587);
        assert(0x991711052d8bf3c5751bdd152d4d1c4aint * 2489206111144456682857625621512049696236100867488466853240446645915879533614153376473577929250285446782786635822048992849886417388916015625int < 0x800000000000000000000000000000000000000000000000000000000000000000000000000000000000000000000000000000000000000000000000000000000000000000000000000int && 0x800000000000000000000000000000000000000000000000000000000000000000000000000000000000000000000000000000000000000000000000000000000000000000000000000int < 0x991711052d8bf3c5751bdd152d4d1c4bint * 2489206111144456682857625621512049696236100867488466853240446645915879533614153376473577929250285446782786635822048992849886417388916015625int);
    } else if q == -197 {
        assert(entry_value(-197) == 0xbf5cd54678eef0b6d262d45a78a0635dint);
        assert(table_exponent(-197) == 585);
        assert(0xbf5cd54678eef0b6d262d45a78a0635dint * 497841222228891336571525124302409939247220173497693370648089329183175906722830675294715585850057089356557327164409798569977283477783203125int < 0x200000000000000000000000000000000000000000000000000000000000000000000000000000000000000000000000000000000000000000000000000000000000000000000000000int && 0x200000000000000000000000000000000000000000000000000000000000000000000000000000000000000000000000000000000000000000000000000000000000000000000000000int < 0xbf5cd54678eef0b6d262d45a78a0635eint * 497841222228891336571525124302409939247220173497693370648089329183175906722830675294715585850057089356557327164409798569977283477783203125int);
    } else if q == -196 {
        assert(entry_value(-196) == 0xef340a98172aace486fb897116c87c34int);
        assert(table_exponent(-196) == 583);
        assert(0xef340a98172aace486fb897116c87c34int * 99568244445778267314305024860481987849444034699538674129617865836635181344566135058943117170011417871311465432881959713995456695556640625int < 0x80000000000000000000000000000000000000000000000000000000000000000000000000000000000000000000000000000000000000000000000000000000000000000000000000int && 0x80000000000000000000000000000000000000000000000000000000000000000000000000000000000000000000000000000000000000000000000000000000000000000000000000int < 0xef340a98172aace486fb897116c87c35int * 99568244445778267314305024860481987849444034699538674129617865836635181344566135058943117170011417871311465432881959713995456695556640625int);
    } else if q == -195 {
        assert(entry_value(-195) == 0x9580869f0e7aac0ed45d35e6ae3d4da0int);
        assert(table_exponent(-195) == 580);
        assert(0x9580869f0e7aac0ed45d35e6ae3d4da0int * 19913648889155653462861004972096397569888806939907734825923573167327036268913227011788623434002283574262293086576391942799091339111328125int < 0x10000000000000000000000000000000000000000000000000000000000000000000000000000000000000000000000000000000000000000000000000000000000000000000000000int && 0x10000000000000000000000000000000000000000000000000000000000000000000000000000000000000000000000000000000000000000000000000000000000000000000000000int < 0x9580869f0e7aac0ed45d35e6ae3d4da1int * 19913648889155653462861004972096397569888806939907734825923573167327036268913227011788623434002283574262293086576391942799091339111328125int);
    } else if q == -194 {
        assert(entry_value(-194) == 0xbae0a846d21957128974836059cca109int);
        assert(table_exponent(-194) == 578);
        assert(0xbae0a846d21957128974836059cca109int * 3982729777831130692572200994419279513977761387981546965184714633465407253782645402357724686800456714852458617315278388559818267822265625int < 0x4000000000000000000000000000000000000000000000000000000000000000000000000000000000000000000000000000000000000000000000000000000000000000000000000int && 0x4000000000000000000000000000000000000000000000000000000000000000000000000000000000000000000000000000000000000000000000000000000000000000000000000int < 0xbae0a846d21957128974836059cca10aint * 3982729777831130692572200994419279513977761387981546965184714633465407253782645402357724686800456714852458617315278388559818267822265625int);
    } else if q == -193 {
        assert(entry_value(-193) == 0xe998d258869facd72bd1a438703fc94bint);
        assert(table_exponent(-193) == 576);
        assert(0xe998d258869facd72bd1a438703fc94bint * 796545955566226138514440198883855902795552277596309393036942926693081450756529080471544937360091342970491723463055677711963653564453125int < 0x1000000000000000000000000000000000000000000000000000000000000000000000000000000000000000000000000000000000000000000000000000000000000000000000000int && 0x1000000000000000000000000000000000000000000000000000000000000000000000000000000000000000000000000000000000000000000000000000000000000000000000000int < 0xe998d258869facd72bd1a438703fc94cint * 796545955566226138514440198883855902795552277596309393036942926693081450756529080471544937360091342970491723463055677711963653564453125int);
    }
}

/// A part of the entries of the table, each held against its power of five.
proof fn lemma_entries_5(q: int)
    requires
        -192 <= q <= -163,
    ensures
        approximates(q),
{
    lemma_pow5_values_4();
    lemma_pow2_values_3();
    lemma_pow2_values_12();
    lemma_pow2_values_13();
    lemma_pow2_values_14();
    if q == -192 {
        assert(entry_value(-192) == 0x91ff83775423cc067b6306a34627ddcfint);
        assert(table_exponent(-192) == 573);
        assert(0x91ff83775423cc067b6306a34627ddcfint * 159309191113245227702888039776771180559110455519261878607388585338616290151305816094308987472018268594098344692611135542392730712890625int < 0x200000000000000000000000000000000000000000000000000000000000000000000000000000000000000000000000000000000000000000000000000000000000000000000000int && 0x200000000000000000000000000000000000000000000000000000000000000000000000000000000000000000000000000000000000000000000000000000000000000000000000int < 0x91ff83775423cc067b6306a34627ddd0int * 159309191113245227702888039776771180559110455519261878607388585338616290151305816094308987472018268594098344692611135542392730712890625int);
    } else if q == -191 {
        assert(entry_value(-191) == 0xb67f6455292cbf081a3bc84c17b1d542int);
        assert(table_exponent(-191) == 571);
        assert(0xb67f6455292cbf081a3bc84c17b1d542int * 31861838222649045540577607955354236111822091103852375721477717067723258030261163218861797494403653718819668938522227108478546142578125int < 0x80000000000000000000000000000000000000000000000000000000000000000000000000000000000000000000000000000000000000000000000000000000000000000000000int && 0x80000000000000000000000000000000000000000000000000000000000000000000000000000000000000000000000000000000000000000000000000000000000000000000000int < 0xb67f6455292cbf081a3bc84c17b1d543int * 31861838222649045540577607955354236111822091103852375721477717067723258030261163218861797494403653718819668938522227108478546142578125int);
    } else if q == -190 {
        assert(entry_value(-190) == 0xe41f3d6a7377eeca20caba5f1d9e4a93int);
        assert(table_exponent(-190) == 569);
        assert(0xe41f3d6a7377eeca20caba5f1d9e4a93int * 6372367644529809108115521591070847222364418220770475144295543413544651606052232643772359498880730743763933787704445421695709228515625int < 0x20000000000000000000000000000000000000000000000000000000000000000000000000000000000000000000000000000000000000000000000000000000000000000000000int && 0x20000000000000000000000000000000000000000000000000000000000000000000000000000000000000000000000000000000000000000000000000000000000000000000000int < 0xe41f3d6a7377eeca20caba5f1d9e4a94int * 6372367644529809108115521591070847222364418220770475144295543413544651606052232643772359498880730743763933787704445421695709228515625int);
    } else if q == -189 {
        assert(entry_value(-189) == 0x8e938662882af53e547eb47b7282ee9cint);
        assert(table_exponent(-189) == 566);
        assert(0x8e938662882af53e547eb47b7282ee9cint * 1274473528905961821623104318214169444472883644154095028859108682708930321210446528754471899776146148752786757540889084339141845703125int < 0x4000000000000000000000000000000000000000000000000000000000000000000000000000000000000000000000000000000000000000000000000000000000000000000000int && 0x4000000000000000000000000000000000000000000000000000000000000000000000000000000000000000000000000000000000000000000000000000000000000000000000int < 0x8e938662882af53e547eb47b7282ee9dint * 1274473528905961821623104318214169444472883644154095028859108682708930321210446528754471899776146148752786757540889084339141845703125int);
    } else if q == -188 {
        assert(entry_value(-188) == 0xb23867fb2a35b28de99e619a4f23aa43int);
        assert(table_exponent(-188) == 564);
        assert(0xb23867fb2a35b28de99e619a4f23aa43int * 254894705781192364324620863642833888894576728830819005771821736541786064242089305750894379955229229750557351508177816867828369140625int < 0x1000000000000000000000000000000000000000000000000000000000000000000000000000000000000000000000000000000000000000000000000000000000000000000000int && 0x1000000000000000000000000000000000000000000000000000000000000000000000000000000000000000000000000000000000000000000000000000000000000000000000int < 0xb23867fb2a35b28de99e619a4f23aa44int * 254894705781192364324620863642833888894576728830819005771821736541786064242089305750894379955229229750557351508177816867828369140625int);
    } else if q == -187 {
        assert(entry_value(-187) == 0xdec681f9f4c31f316405fa00e2ec94d4int);
        assert(table_exponent(-187) == 562);
        assert(0xdec681f9f4c31f316405fa00e2ec94d4int * 50978941156238472864924172728566777778915345766163801154364347308357212848417861150178875991045845950111470301635563373565673828125int < 0x400000000000000000000000000000000000000000000000000000000000000000000000000000000000000000000000000000000000000000000000000000000000000000000int && 0x400000000000000000000000000000000000000000000000000000000000000000000000000000000000000000000000000000000000000000000000000000000000000000000int < 0xdec681f9f4c31f316405fa00e2ec94d5int * 50978941156238472864924172728566777778915345766163801154364347308357212848417861150178875991045845950111470301635563373565673828125int);
    } else if q == -186 {
        assert(entry_value(-186) == 0x8b3c113c38f9f37ede83bc408dd3dd04int);
        assert(table_exponent(-186) == 559);
        assert(0x8b3c113c38f9f37ede83bc408dd3dd04int * 10195788231247694572984834545713355555783069153232760230872869461671442569683572230035775198209169190022294060327112674713134765625int < 0x80000000000000000000000000000000000000000000000000000000000000000000000000000000000000000000000000000000000000000000000000000000000000000000int && 0x80000000000000000000000000000000000000000000000000000000000000000000000000000000000000000000000000000000000000000000000000000000000000000000int < 0x8b3c113c38f9f37ede83bc408dd3dd05int * 10195788231247694572984834545713355555783069153232760230872869461671442569683572230035775198209169190022294060327112674713134765625int);
    } else if q == -185 {
        assert(entry_value(-185) == 0xae0b158b4738705e9624ab50b148d445int);
        assert(table_exponent(-185) == 557);
        assert(0xae0b158b4738705e9624ab50b148d445int * 2039157646249538914596966909142671111156613830646552046174573892334288513936714446007155039641833838004458812065422534942626953125int < 0x20000000000000000000000000000000000000000000000000000000000000000000000000000000000000000000000000000000000000000000000000000000000000000000int && 0x20000000000000000000000000000000000000000000000000000000000000000000000000000000000000000000000000000000000000000000000000000000000000000000int < 0xae0b158b4738705e9624ab50b148d446int * 2039157646249538914596966909142671111156613830646552046174573892334288513936714446007155039641833838004458812065422534942626953125int);
    } else if q == -184 {
        assert(entry_value(-184) == 0xd98ddaee19068c763badd624dd9b0957int);
        assert(table_exponent(-184) == 555);
        assert(0xd98ddaee19068c763badd624dd9b0957int * 407831529249907782919393381828534222231322766129310409234914778466857702787342889201431007928366767600891762413084506988525390625int < 0x8000000000000000000000000000000000000000000000000000000000000000000000000000000000000000000000000000000000000000000000000000000000000000000int && 0x8000000000000000000000000000000000000000000000000000000000000000000000000000000000000000000000000000000000000000000000000000000000000000000int < 0xd98ddaee19068c763badd624dd9b0958int * 407831529249907782919393381828534222231322766129310409234914778466857702787342889201431007928366767600891762413084506988525390625int);
    } else if q == -183 {
        assert(entry_value(-183) == 0x87f8a8d4cfa417c9e54ca5d70a80e5d6int);
        assert(table_exponent(-183) == 552);
        assert(0x87f8a8d4cfa417c9e54ca5d70a80e5d6int * 81566305849981556583878676365706844446264553225862081846982955693371540557468577840286201585673353520178352482616901397705078125int < 0x1000000000000000000000000000000000000000000000000000000000000000000000000000000000000000000000000000000000000000000000000000000000000000000int && 0x1000000000000000000000000000000000000000000000000000000000000000000000000000000000000000000000000000000000000000000000000000000000000000000int < 0x87f8a8d4cfa417c9e54ca5d70a80e5d7int * 81566305849981556583878676365706844446264553225862081846982955693371540557468577840286201585673353520178352482616901397705078125int);
    } else if q == -182 {
        assert(entry_value(-182) == 0xa9f6d30a038d1dbc5e9fcf4ccd211f4cint);
        assert(table_exponent(-182) == 550);
        assert(0xa9f6d30a038d1dbc5e9fcf4ccd211f4cint * 16313261169996311316775735273141368889252910645172416369396591138674308111493715568057240317134670704035670496523380279541015625int < 0x400000000000000000000000000000000000000000000000000000000000000000000000000000000000000000000000000000000000000000000000000000000000000000int && 0x400000000000000000000000000000000000000000000000000000000000000000000000000000000000000000000000000000000000000000000000000000000000000000int < 0xa9f6d30a038d1dbc5e9fcf4ccd211f4dint * 16313261169996311316775735273141368889252910645172416369396591138674308111493715568057240317134670704035670496523380279541015625int);
    } else if q == -181 {
        assert(entry_value(-181) == 0xd47487cc8470652b7647c3200069671fint);
        assert(table_exponent(-181) == 548);
        assert(0xd47487cc8470652b7647c3200069671fint * 3262652233999262263355147054628273777850582129034483273879318227734861622298743113611448063426934140807134099304676055908203125int < 0x100000000000000000000000000000000000000000000000000000000000000000000000000000000000000000000000000000000000000000000000000000000000000000int && 0x100000000000000000000000000000000000000000000000000000000000000000000000000000000000000000000000000000000000000000000000000000000000000000int < 0xd47487cc8470652b7647c32000696720int * 3262652233999262263355147054628273777850582129034483273879318227734861622298743113611448063426934140807134099304676055908203125int);
    } else if q == -180 {
        assert(entry_value(-180) == 0x84c8d4dfd2c63f3b29ecd9f40041e073int);
        assert(table_exponent(-180) == 545);
        assert(0x84c8d4dfd2c63f3b29ecd9f40041e073int * 652530446799852452671029410925654755570116425806896654775863645546972324459748622722289612685386828161426819860935211181640625int < 0x20000000000000000000000000000000000000000000000000000000000000000000000000000000000000000000000000000000000000000000000000000000000000000int && 0x20000000000000000000000000000000000000000000000000000000000000000000000000000000000000000000000000000000000000000000000000000000000000000int < 0x84c8d4dfd2c63f3b29ecd9f40041e074int * 652530446799852452671029410925654755570116425806896654775863645546972324459748622722289612685386828161426819860935211181640625int);
    } else if q == -179 {
        assert(entry_value(-179) == 0xa5fb0a17c777cf09f468107100525890int);
        assert(table_exponent(-179) == 543);
        assert(0xa5fb0a17c777cf09f468107100525890int * 130506089359970490534205882185130951114023285161379330955172729109394464891949724544457922537077365632285363972187042236328125int < 0x8000000000000000000000000000000000000000000000000000000000000000000000000000000000000000000000000000000000000000000000000000000000000000int && 0x8000000000000000000000000000000000000000000000000000000000000000000000000000000000000000000000000000000000000000000000000000000000000000int < 0xa5fb0a17c777cf09f468107100525891int * 130506089359970490534205882185130951114023285161379330955172729109394464891949724544457922537077365632285363972187042236328125int);
    } else if q == -178 {
        assert(entry_value(-178) == 0xcf79cc9db955c2cc7182148d4066eeb4int);
        assert(table_exponent(-178) == 541);
        assert(0xcf79cc9db955c2cc7182148d4066eeb4int * 26101217871994098106841176437026190222804657032275866191034545821878892978389944908891584507415473126457072794437408447265625int < 0x2000000000000000000000000000000000000000000000000000000000000000000000000000000000000000000000000000000000000000000000000000000000000000int && 0x2000000000000000000000000000000000000000000000000000000000000000000000000000000000000000000000000000000000000000000000000000000000000000int < 0xcf79cc9db955c2cc7182148d4066eeb5int * 26101217871994098106841176437026190222804657032275866191034545821878892978389944908891584507415473126457072794437408447265625int);
    } else if q == -177 {
        assert(entry_value(-177) == 0x81ac1fe293d599bfc6f14cd848405530int);
        assert(table_exponent(-177) == 538);
        assert(0x81ac1fe293d599bfc6f14cd848405530int * 5220243574398819621368235287405238044560931406455173238206909164375778595677988981778316901483094625291414558887481689453125int < 0x400000000000000000000000000000000000000000000000000000000000000000000000000000000000000000000000000000000000000000000000000000000000000int && 0x400000000000000000000000000000000000000000000000000000000000000000000000000000000000000000000000000000000000000000000000000000000000000int < 0x81ac1fe293d599bfc6f14cd848405531int * 5220243574398819621368235287405238044560931406455173238206909164375778595677988981778316901483094625291414558887481689453125int);
    } else if q == -176 {
        assert(entry_value(-176) == 0xa21727db38cb002fb8ada00e5a506a7cint);
        assert(table_exponent(-176) == 536);
        assert(0xa21727db38cb002fb8ada00e5a506a7cint * 1044048714879763924273647057481047608912186281291034647641381832875155719135597796355663380296618925058282911777496337890625int < 0x100000000000000000000000000000000000000000000000000000000000000000000000000000000000000000000000000000000000000000000000000000000000000int && 0x100000000000000000000000000000000000000000000000000000000000000000000000000000000000000000000000000000000000000000000000000000000000000int < 0xa21727db38cb002fb8ada00e5a506a7dint * 1044048714879763924273647057481047608912186281291034647641381832875155719135597796355663380296618925058282911777496337890625int);
    } else if q == -175 {
        assert(entry_value(-175) == 0xca9cf1d206fdc03ba6d90811f0e4851cint);
        assert(table_exponent(-175) == 534);
        assert(0xca9cf1d206fdc03ba6d90811f0e4851cint * 208809742975952784854729411496209521782437256258206929528276366575031143827119559271132676059323785011656582355499267578125int < 0x40000000000000000000000000000000000000000000000000000000000000000000000000000000000000000000000000000000000000000000000000000000000000int && 0x40000000000000000000000000000000000000000000000000000000000000000000000000000000000000000000000000000000000000000000000000000000000000int < 0xca9cf1d206fdc03ba6d90811f0e4851dint * 208809742975952784854729411496209521782437256258206929528276366575031143827119559271132676059323785011656582355499267578125int);
    } else if q == -174 {
        assert(entry_value(-174) == 0xfd442e4688bd304a908f4a166d1da663int);
        assert(table_exponent(-174) == 532);
        assert(0xfd442e4688bd304a908f4a166d1da663int * 41761948595190556970945882299241904356487451251641385905655273315006228765423911854226535211864757002331316471099853515625int < 0x10000000000000000000000000000000000000000000000000000000000000000000000000000000000000000000000000000000000000000000000000000000000000int && 0x10000000000000000000000000000000000000000000000000000000000000000000000000000000000000000000000000000000000000000000000000000000000000int < 0xfd442e4688bd304a908f4a166d1da664int * 41761948595190556970945882299241904356487451251641385905655273315006228765423911854226535211864757002331316471099853515625int);
    } else if q == -173 {
        assert(entry_value(-173) == 0x9e4a9cec15763e2e9a598e4e043287feint);
        assert(table_exponent(-173) == 529);
        assert(0x9e4a9cec15763e2e9a598e4e043287feint * 8352389719038111394189176459848380871297490250328277181131054663001245753084782370845307042372951400466263294219970703125int < 0x2000000000000000000000000000000000000000000000000000000000000000000000000000000000000000000000000000000000000000000000000000000000000int && 0x2000000000000000000000000000000000000000000000000000000000000000000000000000000000000000000000000000000000000000000000000000000000000int < 0x9e4a9cec15763e2e9a598e4e043287ffint * 8352389719038111394189176459848380871297490250328277181131054663001245753084782370845307042372951400466263294219970703125int);
    } else if q == -172 {
        assert(entry_value(-172) == 0xc5dd44271ad3cdba40eff1e1853f29fdint);
        assert(table_exponent(-172) == 527);
        assert(0xc5dd44271ad3cdba40eff1e1853f29fdint * 1670477943807622278837835291969676174259498050065655436226210932600249150616956474169061408474590280093252658843994140625int < 0x800000000000000000000000000000000000000000000000000000000000000000000000000000000000000000000000000000000000000000000000000000000000int && 0x800000000000000000000000000000000000000000000000000000000000000000000000000000000000000000000000000000000000000000000000000000000000int < 0xc5dd44271ad3cdba40eff1e1853f29feint * 1670477943807622278837835291969676174259498050065655436226210932600249150616956474169061408474590280093252658843994140625int);
    } else if q == -171 {
        assert(entry_value(-171) == 0xf7549530e188c128d12bee59e68ef47cint);
        assert(table_exponent(-171) == 525);
        assert(0xf7549530e188c128d12bee59e68ef47cint * 334095588761524455767567058393935234851899610013131087245242186520049830123391294833812281694918056018650531768798828125int < 0x200000000000000000000000000000000000000000000000000000000000000000000000000000000000000000000000000000000000000000000000000000000000int && 0x200000000000000000000000000000000000000000000000000000000000000000000000000000000000000000000000000000000000000000000000000000000000int < 0xf7549530e188c128d12bee59e68ef47dint * 334095588761524455767567058393935234851899610013131087245242186520049830123391294833812281694918056018650531768798828125int);
    } else if q == -170 {
        assert(entry_value(-170) == 0x9a94dd3e8cf578b982bb74f8301958ceint);
        assert(table_exponent(-170) == 522);
        assert(0x9a94dd3e8cf578b982bb74f8301958ceint * 66819117752304891153513411678787046970379922002626217449048437304009966024678258966762456338983611203730106353759765625int < 0x40000000000000000000000000000000000000000000000000000000000000000000000000000000000000000000000000000000000000000000000000000000000int && 0x40000000000000000000000000000000000000000000000000000000000000000000000000000000000000000000000000000000000000000000000000000000000int < 0x9a94dd3e8cf578b982bb74f8301958cfint * 66819117752304891153513411678787046970379922002626217449048437304009966024678258966762456338983611203730106353759765625int);
    } else if q == -169 {
        assert(entry_value(-169) == 0xc13a148e3032d6e7e36a52363c1faf01int);
        assert(table_exponent(-169) == 520);
        assert(0xc13a148e3032d6e7e36a52363c1faf01int * 13363823550460978230702682335757409394075984400525243489809687460801993204935651793352491267796722240746021270751953125int < 0x10000000000000000000000000000000000000000000000000000000000000000000000000000000000000000000000000000000000000000000000000000000000int && 0x10000000000000000000000000000000000000000000000000000000000000000000000000000000000000000000000000000000000000000000000000000000000int < 0xc13a148e3032d6e7e36a52363c1faf02int * 13363823550460978230702682335757409394075984400525243489809687460801993204935651793352491267796722240746021270751953125int);
    } else if q == -168 {
        assert(entry_value(-168) == 0xf18899b1bc3f8ca1dc44e6c3cb279ac1int);
        assert(table_exponent(-168) == 518);
        assert(0xf18899b1bc3f8ca1dc44e6c3cb279ac1int * 2672764710092195646140536467151481878815196880105048697961937492160398640987130358670498253559344448149204254150390625int < 0x4000000000000000000000000000000000000000000000000000000000000000000000000000000000000000000000000000000000000000000000000000000000int && 0x4000000000000000000000000000000000000000000000000000000000000000000000000000000000000000000000000000000000000000000000000000000000int < 0xf18899b1bc3f8ca1dc44e6c3cb279ac2int * 2672764710092195646140536467151481878815196880105048697961937492160398640987130358670498253559344448149204254150390625int);
    } else if q == -167 {
        assert(entry_value(-167) == 0x96f5600f15a7b7e529ab103a5ef8c0b9int);
        assert(table_exponent(-167) == 515);
        assert(0x96f5600f15a7b7e529ab103a5ef8c0b9int * 534552942018439129228107293430296375763039376021009739592387498432079728197426071734099650711868889629840850830078125int < 0x800000000000000000000000000000000000000000000000000000000000000000000000000000000000000000000000000000000000000000000000000000000int && 0x800000000000000000000000000000000000000000000000000000000000000000000000000000000000000000000000000000000000000000000000000000000int < 0x96f5600f15a7b7e529ab103a5ef8c0baint * 534552942018439129228107293430296375763039376021009739592387498432079728197426071734099650711868889629840850830078125int);
    } else if q == -166 {
        assert(entry_value(-166) == 0xbcb2b812db11a5de7415d448f6b6f0e7int);
        assert(table_exponent(-166) == 513);
        assert(0xbcb2b812db11a5de7415d448f6b6f0e7int * 106910588403687825845621458686059275152607875204201947918477499686415945639485214346819930142373777925968170166015625int < 0x200000000000000000000000000000000000000000000000000000000000000000000000000000000000000000000000000000000000000000000000000000000int && 0x200000000000000000000000000000000000000000000000000000000000000000000000000000000000000000000000000000000000000000000000000000000int < 0xbcb2b812db11a5de7415d448f6b6f0e8int * 106910588403687825845621458686059275152607875204201947918477499686415945639485214346819930142373777925968170166015625int);
    } else if q == -165 {
        assert(entry_value(-165) == 0xebdf661791d60f56111b495b3464ad21int);
        assert(table_exponent(-165) == 511);
        assert(0xebdf661791d60f56111b495b3464ad21int * 21382117680737565169124291737211855030521575040840389583695499937283189127897042869363986028474755585193634033203125int < 0x80000000000000000000000000000000000000000000000000000000000000000000000000000000000000000000000000000000000000000000000000000000int && 0x80000000000000000000000000000000000000000000000000000000000000000000000000000000000000000000000000000000000000000000000000000000int < 0xebdf661791d60f56111b495b3464ad22int * 21382117680737565169124291737211855030521575040840389583695499937283189127897042869363986028474755585193634033203125int);
    } else if q == -164 {
        assert(entry_value(-164) == 0x936b9fcebb25c995cab10dd900beec34int);
        assert(table_exponent(-164) == 508);
        assert(0x936b9fcebb25c995cab10dd900beec34int * 4276423536147513033824858347442371006104315008168077916739099987456637825579408573872797205694951117038726806640625int < 0x10000000000000000000000000000000000000000000000000000000000000000000000000000000000000000000000000000000000000000000000000000000int && 0x10000000000000000000000000000000000000000000000000000000000000000000000000000000000000000000000000000000000000000000000000000000int < 0x936b9fcebb25c995cab10dd900beec35int * 4276423536147513033824858347442371006104315008168077916739099987456637825579408573872797205694951117038726806640625int);
    } else if q == -163 {
        assert(entry_value(-163) == 0xb84687c269ef3bfb3d5d514f40eea742int);
        assert(table_exponent(-163) == 506);
        assert(0xb84687c269ef3bfb3d5d514f40eea742int * 855284707229502606764971669488474201220863001633615583347819997491327565115881714774559441138990223407745361328125int < 0x4000000000000000000000000000000000000000000000000000000000000000000000000000000000000000000000000000000000000000000000000000000int && 0x4000000000000000000000000000000000000000000000000000000000000000000000000000000000000000000000000000000000000000000000000000000int < 0xb84687c269ef3bfb3d5d514f40eea743int * 855284707229502606764971669488474201220863001633615583347819997491327565115881714774559441138990223407745361328125int);
    }
}

/// A part of the entries of the table, each held against its power of five.
proof fn lemma_entries_6(q: int)
    requires
        -162 <= q <= -133,
    ensures
        approximates(q),
{
    lemma_pow5_values_3();
    lemma_pow5_values_4();
    lemma_pow2_values_3();
    lemma_pow2_values_10();
    lemma_pow2_values_11();
    lemma_pow2_values_12();
    if q == -162 {
        assert(entry_value(-162) == 0xe65829b3046b0afa0cb4a5a3112a5112int);
        assert(table_exponent(-162) == 504);
        assert(0xe65829b3046b0afa0cb4a5a3112a5112int * 171056941445900521352994333897694840244172600326723116669563999498265513023176342954911888227798044681549072265625int < 0x1000000000000000000000000000000000000000000000000000000000000000000000000000000000000000000000000000000000000000000000000000000int && 0x1000000000000000000000000000000000000000000000000000000000000000000000000000000000000000000000000000000000000000000000000000000int < 0xe65829b3046b0afa0cb4a5a3112a5113int * 171056941445900521352994333897694840244172600326723116669563999498265513023176342954911888227798044681549072265625int);
    } else if q == -161 {
        assert(entry_value(-161) == 0x8ff71a0fe2c2e6dc47f0e785eaba72abint);
        assert(table_exponent(-161) == 501);
        assert(0x8ff71a0fe2c2e6dc47f0e785eaba72abint * 34211388289180104270598866779538968048834520065344623333912799899653102604635268590982377645559608936309814453125int < 0x200000000000000000000000000000000000000000000000000000000000000000000000000000000000000000000000000000000000000000000000000000int && 0x200000000000000000000000000000000000000000000000000000000000000000000000000000000000000000000000000000000000000000000000000000int < 0x8ff71a0fe2c2e6dc47f0e785eaba72acint * 34211388289180104270598866779538968048834520065344623333912799899653102604635268590982377645559608936309814453125int);
    } else if q == -160 {
        assert(entry_value(-160) == 0xb3f4e093db73a09359ed216765690f56int);
        assert(table_exponent(-160) == 499);
        assert(0xb3f4e093db73a09359ed216765690f56int * 6842277657836020854119773355907793609766904013068924666782559979930620520927053718196475529111921787261962890625int < 0x80000000000000000000000000000000000000000000000000000000000000000000000000000000000000000000000000000000000000000000000000000int && 0x80000000000000000000000000000000000000000000000000000000000000000000000000000000000000000000000000000000000000000000000000000int < 0xb3f4e093db73a09359ed216765690f57int * 6842277657836020854119773355907793609766904013068924666782559979930620520927053718196475529111921787261962890625int);
    } else if q == -159 {
        assert(entry_value(-159) == 0xe0f218b8d25088b8306869c13ec3532cint);
        assert(table_exponent(-159) == 497);
        assert(0xe0f218b8d25088b8306869c13ec3532cint * 1368455531567204170823954671181558721953380802613784933356511995986124104185410743639295105822384357452392578125int < 0x20000000000000000000000000000000000000000000000000000000000000000000000000000000000000000000000000000000000000000000000000000int && 0x20000000000000000000000000000000000000000000000000000000000000000000000000000000000000000000000000000000000000000000000000000int < 0xe0f218b8d25088b8306869c13ec3532dint * 1368455531567204170823954671181558721953380802613784933356511995986124104185410743639295105822384357452392578125int);
    } else if q == -158 {
        assert(entry_value(-158) == 0x8c974f73837255731e414218c73a13fbint);
        assert(table_exponent(-158) == 494);
        assert(0x8c974f73837255731e414218c73a13fbint * 273691106313440834164790934236311744390676160522756986671302399197224820837082148727859021164476871490478515625int < 0x4000000000000000000000000000000000000000000000000000000000000000000000000000000000000000000000000000000000000000000000000000int && 0x4000000000000000000000000000000000000000000000000000000000000000000000000000000000000000000000000000000000000000000000000000int < 0x8c974f73837255731e414218c73a13fcint * 273691106313440834164790934236311744390676160522756986671302399197224820837082148727859021164476871490478515625int);
    } else if q == -157 {
        assert(entry_value(-157) == 0xafbd2350644eeacfe5d1929ef90898faint);
        assert(table_exponent(-157) == 492);
        assert(0xafbd2350644eeacfe5d1929ef90898faint * 54738221262688166832958186847262348878135232104551397334260479839444964167416429745571804232895374298095703125int < 0x1000000000000000000000000000000000000000000000000000000000000000000000000000000000000000000000000000000000000000000000000000int && 0x1000000000000000000000000000000000000000000000000000000000000000000000000000000000000000000000000000000000000000000000000000int < 0xafbd2350644eeacfe5d1929ef90898fbint * 54738221262688166832958186847262348878135232104551397334260479839444964167416429745571804232895374298095703125int);
    } else if q == -156 {
        assert(entry_value(-156) == 0xdbac6c247d62a583df45f746b74abf39int);
        assert(table_exponent(-156) == 490);
        assert(0xdbac6c247d62a583df45f746b74abf39int * 10947644252537633366591637369452469775627046420910279466852095967888992833483285949114360846579074859619140625int < 0x400000000000000000000000000000000000000000000000000000000000000000000000000000000000000000000000000000000000000000000000000int && 0x400000000000000000000000000000000000000000000000000000000000000000000000000000000000000000000000000000000000000000000000000int < 0xdbac6c247d62a583df45f746b74abf3aint * 10947644252537633366591637369452469775627046420910279466852095967888992833483285949114360846579074859619140625int);
    } else if q == -155 {
        assert(entry_value(-155) == 0x894bc396ce5da7726b8bba8c328eb783int);
        assert(table_exponent(-155) == 487);
        assert(0x894bc396ce5da7726b8bba8c328eb783int * 2189528850507526673318327473890493955125409284182055893370419193577798566696657189822872169315814971923828125int < 0x80000000000000000000000000000000000000000000000000000000000000000000000000000000000000000000000000000000000000000000000000int && 0x80000000000000000000000000000000000000000000000000000000000000000000000000000000000000000000000000000000000000000000000000int < 0x894bc396ce5da7726b8bba8c328eb784int * 2189528850507526673318327473890493955125409284182055893370419193577798566696657189822872169315814971923828125int);
    } else if q == -154 {
        assert(entry_value(-154) == 0xab9eb47c81f5114f066ea92f3f326564int);
        assert(table_exponent(-154) == 485);
        assert(0xab9eb47c81f5114f066ea92f3f326564int * 437905770101505334663665494778098791025081856836411178674083838715559713339331437964574433863162994384765625int < 0x20000000000000000000000000000000000000000000000000000000000000000000000000000000000000000000000000000000000000000000000000int && 0x20000000000000000000000000000000000000000000000000000000000000000000000000000000000000000000000000000000000000000000000000int < 0xab9eb47c81f5114f066ea92f3f326565int * 437905770101505334663665494778098791025081856836411178674083838715559713339331437964574433863162994384765625int);
    } else if q == -153 {
        assert(entry_value(-153) == 0xd686619ba27255a2c80a537b0efefebdint);
        assert(table_exponent(-153) == 483);
        assert(0xd686619ba27255a2c80a537b0efefebdint * 87581154020301066932733098955619758205016371367282235734816767743111942667866287592914886772632598876953125int < 0x8000000000000000000000000000000000000000000000000000000000000000000000000000000000000000000000000000000000000000000000000int && 0x8000000000000000000000000000000000000000000000000000000000000000000000000000000000000000000000000000000000000000000000000int < 0xd686619ba27255a2c80a537b0efefebeint * 87581154020301066932733098955619758205016371367282235734816767743111942667866287592914886772632598876953125int);
    } else if q == -152 {
        assert(entry_value(-152) == 0x8613fd0145877585bd06742ce95f5f36int);
        assert(table_exponent(-152) == 480);
        assert(0x8613fd0145877585bd06742ce95f5f36int * 17516230804060213386546619791123951641003274273456447146963353548622388533573257518582977354526519775390625int < 0x1000000000000000000000000000000000000000000000000000000000000000000000000000000000000000000000000000000000000000000000000int && 0x1000000000000000000000000000000000000000000000000000000000000000000000000000000000000000000000000000000000000000000000000int < 0x8613fd0145877585bd06742ce95f5f37int * 17516230804060213386546619791123951641003274273456447146963353548622388533573257518582977354526519775390625int);
    } else if q == -151 {
        assert(entry_value(-151) == 0xa798fc4196e952e72c48113823b73704int);
        assert(table_exponent(-151) == 478);
        assert(0xa798fc4196e952e72c48113823b73704int * 3503246160812042677309323958224790328200654854691289429392670709724477706714651503716595470905303955078125int < 0x400000000000000000000000000000000000000000000000000000000000000000000000000000000000000000000000000000000000000000000000int && 0x400000000000000000000000000000000000000000000000000000000000000000000000000000000000000000000000000000000000000000000000int < 0xa798fc4196e952e72c48113823b73705int * 3503246160812042677309323958224790328200654854691289429392670709724477706714651503716595470905303955078125int);
    } else if q == -150 {
        assert(entry_value(-150) == 0xd17f3b51fca3a7a0f75a15862ca504c5int);
        assert(table_exponent(-150) == 476);
        assert(0xd17f3b51fca3a7a0f75a15862ca504c5int * 700649232162408535461864791644958065640130970938257885878534141944895541342930300743319094181060791015625int < 0x100000000000000000000000000000000000000000000000000000000000000000000000000000000000000000000000000000000000000000000000int && 0x100000000000000000000000000000000000000000000000000000000000000000000000000000000000000000000000000000000000000000000000int < 0xd17f3b51fca3a7a0f75a15862ca504c6int * 700649232162408535461864791644958065640130970938257885878534141944895541342930300743319094181060791015625int);
    } else if q == -149 {
        assert(entry_value(-149) == 0x82ef85133de648c49a984d73dbe722fbint);
        assert(table_exponent(-149) == 473);
        assert(0x82ef85133de648c49a984d73dbe722fbint * 140129846432481707092372958328991613128026194187651577175706828388979108268586060148663818836212158203125int < 0x20000000000000000000000000000000000000000000000000000000000000000000000000000000000000000000000000000000000000000000000int && 0x20000000000000000000000000000000000000000000000000000000000000000000000000000000000000000000000000000000000000000000000int < 0x82ef85133de648c49a984d73dbe722fcint * 140129846432481707092372958328991613128026194187651577175706828388979108268586060148663818836212158203125int);
    } else if q == -148 {
        assert(entry_value(-148) == 0xa3ab66580d5fdaf5c13e60d0d2e0ebbaint);
        assert(table_exponent(-148) == 471);
        assert(0xa3ab66580d5fdaf5c13e60d0d2e0ebbaint * 28025969286496341418474591665798322625605238837530315435141365677795821653717212029732763767242431640625int < 0x8000000000000000000000000000000000000000000000000000000000000000000000000000000000000000000000000000000000000000000000int && 0x8000000000000000000000000000000000000000000000000000000000000000000000000000000000000000000000000000000000000000000000int < 0xa3ab66580d5fdaf5c13e60d0d2e0ebbbint * 28025969286496341418474591665798322625605238837530315435141365677795821653717212029732763767242431640625int);
    } else if q == -147 {
        assert(entry_value(-147) == 0xcc963fee10b7d1b3318df905079926a8int);
        assert(table_exponent(-147) == 469);
        assert(0xcc963fee10b7d1b3318df905079926a8int * 5605193857299268283694918333159664525121047767506063087028273135559164330743442405946552753448486328125int < 0x2000000000000000000000000000000000000000000000000000000000000000000000000000000000000000000000000000000000000000000000int && 0x2000000000000000000000000000000000000000000000000000000000000000000000000000000000000000000000000000000000000000000000int < 0xcc963fee10b7d1b3318df905079926a9int * 5605193857299268283694918333159664525121047767506063087028273135559164330743442405946552753448486328125int);
    } else if q == -146 {
        assert(entry_value(-146) == 0xffbbcfe994e5c61ffdf17746497f7052int);
        assert(table_exponent(-146) == 467);
        assert(0xffbbcfe994e5c61ffdf17746497f7052int * 1121038771459853656738983666631932905024209553501212617405654627111832866148688481189310550689697265625int < 0x800000000000000000000000000000000000000000000000000000000000000000000000000000000000000000000000000000000000000000000int && 0x800000000000000000000000000000000000000000000000000000000000000000000000000000000000000000000000000000000000000000000int < 0xffbbcfe994e5c61ffdf17746497f7053int * 1121038771459853656738983666631932905024209553501212617405654627111832866148688481189310550689697265625int);
    } else if q == -145 {
        assert(entry_value(-145) == 0x9fd561f1fd0f9bd3feb6ea8bedefa633int);
        assert(table_exponent(-145) == 464);
        assert(0x9fd561f1fd0f9bd3feb6ea8bedefa633int * 224207754291970731347796733326386581004841910700242523481130925422366573229737696237862110137939453125int < 0x100000000000000000000000000000000000000000000000000000000000000000000000000000000000000000000000000000000000000000000int && 0x100000000000000000000000000000000000000000000000000000000000000000000000000000000000000000000000000000000000000000000int < 0x9fd561f1fd0f9bd3feb6ea8bedefa634int * 224207754291970731347796733326386581004841910700242523481130925422366573229737696237862110137939453125int);
    } else if q == -144 {
        assert(entry_value(-144) == 0xc7caba6e7c5382c8fe64a52ee96b8fc0int);
        assert(table_exponent(-144) == 462);
        assert(0xc7caba6e7c5382c8fe64a52ee96b8fc0int * 44841550858394146269559346665277316200968382140048504696226185084473314645947539247572422027587890625int < 0x40000000000000000000000000000000000000000000000000000000000000000000000000000000000000000000000000000000000000000000int && 0x40000000000000000000000000000000000000000000000000000000000000000000000000000000000000000000000000000000000000000000int < 0xc7caba6e7c5382c8fe64a52ee96b8fc1int * 44841550858394146269559346665277316200968382140048504696226185084473314645947539247572422027587890625int);
    } else if q == -143 {
        assert(entry_value(-143) == 0xf9bd690a1b68637b3dfdce7aa3c673b0int);
        assert(table_exponent(-143) == 460);
        assert(0xf9bd690a1b68637b3dfdce7aa3c673b0int * 8968310171678829253911869333055463240193676428009700939245237016894662929189507849514484405517578125int < 0x10000000000000000000000000000000000000000000000000000000000000000000000000000000000000000000000000000000000000000000int && 0x10000000000000000000000000000000000000000000000000000000000000000000000000000000000000000000000000000000000000000000int < 0xf9bd690a1b68637b3dfdce7aa3c673b1int * 8968310171678829253911869333055463240193676428009700939245237016894662929189507849514484405517578125int);
    } else if q == -142 {
        assert(entry_value(-142) == 0x9c1661a651213e2d06bea10ca65c084eint);
        assert(table_exponent(-142) == 457);
        assert(0x9c1661a651213e2d06bea10ca65c084eint * 1793662034335765850782373866611092648038735285601940187849047403378932585837901569902896881103515625int < 0x2000000000000000000000000000000000000000000000000000000000000000000000000000000000000000000000000000000000000000000int && 0x2000000000000000000000000000000000000000000000000000000000000000000000000000000000000000000000000000000000000000000int < 0x9c1661a651213e2d06bea10ca65c084fint * 1793662034335765850782373866611092648038735285601940187849047403378932585837901569902896881103515625int);
    } else if q == -141 {
        assert(entry_value(-141) == 0xc31bfa0fe5698db8486e494fcff30a62int);
        assert(table_exponent(-141) == 455);
        assert(0xc31bfa0fe5698db8486e494fcff30a62int * 358732406867153170156474773322218529607747057120388037569809480675786517167580313980579376220703125int < 0x800000000000000000000000000000000000000000000000000000000000000000000000000000000000000000000000000000000000000000int && 0x800000000000000000000000000000000000000000000000000000000000000000000000000000000000000000000000000000000000000000int < 0xc31bfa0fe5698db8486e494fcff30a63int * 358732406867153170156474773322218529607747057120388037569809480675786517167580313980579376220703125int);
    } else if q == -140 {
        assert(entry_value(-140) == 0xf3e2f893dec3f1265a89dba3c3efccfaint);
        assert(table_exponent(-140) == 453);
        assert(0xf3e2f893dec3f1265a89dba3c3efccfaint * 71746481373430634031294954664443705921549411424077607513961896135157303433516062796115875244140625int < 0x200000000000000000000000000000000000000000000000000000000000000000000000000000000000000000000000000000000000000000int && 0x200000000000000000000000000000000000000000000000000000000000000000000000000000000000000000000000000000000000000000int < 0xf3e2f893dec3f1265a89dba3c3efccfbint * 71746481373430634031294954664443705921549411424077607513961896135157303433516062796115875244140625int);
    } else if q == -139 {
        assert(entry_value(-139) == 0x986ddb5c6b3a76b7f89629465a75e01cint);
        assert(table_exponent(-139) == 450);
        assert(0x986ddb5c6b3a76b7f89629465a75e01cint * 14349296274686126806258990932888741184309882284815521502792379227031460686703212559223175048828125int < 0x40000000000000000000000000000000000000000000000000000000000000000000000000000000000000000000000000000000000000000int && 0x40000000000000000000000000000000000000000000000000000000000000000000000000000000000000000000000000000000000000000int < 0x986ddb5c6b3a76b7f89629465a75e01dint * 14349296274686126806258990932888741184309882284815521502792379227031460686703212559223175048828125int);
    } else if q == -138 {
        assert(entry_value(-138) == 0xbe89523386091465f6bbb397f1135823int);
        assert(table_exponent(-138) == 448);
        assert(0xbe89523386091465f6bbb397f1135823int * 2869859254937225361251798186577748236861976456963104300558475845406292137340642511844635009765625int < 0x10000000000000000000000000000000000000000000000000000000000000000000000000000000000000000000000000000000000000000int && 0x10000000000000000000000000000000000000000000000000000000000000000000000000000000000000000000000000000000000000000int < 0xbe89523386091465f6bbb397f1135824int * 2869859254937225361251798186577748236861976456963104300558475845406292137340642511844635009765625int);
    } else if q == -137 {
        assert(entry_value(-137) == 0xee2ba6c0678b597f746aa07ded582e2cint);
        assert(table_exponent(-137) == 446);
        assert(0xee2ba6c0678b597f746aa07ded582e2cint * 573971850987445072250359637315549647372395291392620860111695169081258427468128502368927001953125int < 0x4000000000000000000000000000000000000000000000000000000000000000000000000000000000000000000000000000000000000000int && 0x4000000000000000000000000000000000000000000000000000000000000000000000000000000000000000000000000000000000000000int < 0xee2ba6c0678b597f746aa07ded582e2dint * 573971850987445072250359637315549647372395291392620860111695169081258427468128502368927001953125int);
    } else if q == -136 {
        assert(entry_value(-136) == 0x94db483840b717efa8c2a44eb4571cdcint);
        assert(table_exponent(-136) == 443);
        assert(0x94db483840b717efa8c2a44eb4571cdcint * 114794370197489014450071927463109929474479058278524172022339033816251685493625700473785400390625int < 0x800000000000000000000000000000000000000000000000000000000000000000000000000000000000000000000000000000000000000int && 0x800000000000000000000000000000000000000000000000000000000000000000000000000000000000000000000000000000000000000int < 0x94db483840b717efa8c2a44eb4571cddint * 114794370197489014450071927463109929474479058278524172022339033816251685493625700473785400390625int);
    } else if q == -135 {
        assert(entry_value(-135) == 0xba121a4650e4ddeb92f34d62616ce413int);
        assert(table_exponent(-135) == 441);
        assert(0xba121a4650e4ddeb92f34d62616ce413int * 22958874039497802890014385492621985894895811655704834404467806763250337098725140094757080078125int < 0x200000000000000000000000000000000000000000000000000000000000000000000000000000000000000000000000000000000000000int && 0x200000000000000000000000000000000000000000000000000000000000000000000000000000000000000000000000000000000000000int < 0xba121a4650e4ddeb92f34d62616ce414int * 22958874039497802890014385492621985894895811655704834404467806763250337098725140094757080078125int);
    } else if q == -134 {
        assert(entry_value(-134) == 0xe896a0d7e51e156677b020baf9c81d17int);
        assert(table_exponent(-134) == 439);
        assert(0xe896a0d7e51e156677b020baf9c81d17int * 4591774807899560578002877098524397178979162331140966880893561352650067419745028018951416015625int < 0x80000000000000000000000000000000000000000000000000000000000000000000000000000000000000000000000000000000000000int && 0x80000000000000000000000000000000000000000000000000000000000000000000000000000000000000000000000000000000000000int < 0xe896a0d7e51e156677b020baf9c81d18int * 4591774807899560578002877098524397178979162331140966880893561352650067419745028018951416015625int);
    } else if q == -133 {
        assert(entry_value(-133) == 0x915e2486ef32cd600ace1474dc1d122eint);
        assert(table_exponent(-133) == 436);
        assert(0x915e2486ef32cd600ace1474dc1d122eint * 918354961579912115600575419704879435795832466228193376178712270530013483949005603790283203125int < 0x10000000000000000000000000000000000000000000000000000000000000000000000000000000000000000000000000000000000000int && 0x10000000000000000000000000000000000000000000000000000000000000000000000000000000000000000000000000000000000000int < 0x915e2486ef32cd600ace1474dc1d122fint * 918354961579912115600575419704879435795832466228193376178712270530013483949005603790283203125int);
    }
}

/// A part of the entries of the table, each held against its power of five.
proof fn lemma_entries_7(q: int)
    requires
        -132 <= q <= -103,
    ensures
        approximates(q),
{
    lemma_pow5_values_2();
    lemma_pow5_values_3();
    lemma_pow2_values_3();
    lemma_pow2_values_9();
    lemma_pow2_values_10();
    if q == -132 {
        assert(entry_value(-132) == 0xb5b5ada8aaff80b80d819992132456baint);
        assert(table_exponent(-132) == 434);
        assert(0xb5b5ada8aaff80b80d819992132456baint * 183670992315982423120115083940975887159166493245638675235742454106002696789801120758056640625int < 0x4000000000000000000000000000000000000000000000000000000000000000000000000000000000000000000000000000000000000int && 0x4000000000000000000000000000000000000000000000000000000000000000000000000000000000000000000000000000000000000int < 0xb5b5ada8aaff80b80d819992132456bbint * 183670992315982423120115083940975887159166493245638675235742454106002696789801120758056640625int);
    } else if q == -131 {
        assert(entry_value(-131) == 0xe3231912d5bf60e610e1fff697ed6c69int);
        assert(table_exponent(-131) == 432);
        assert(0xe3231912d5bf60e610e1fff697ed6c69int * 36734198463196484624023016788195177431833298649127735047148490821200539357960224151611328125int < 0x1000000000000000000000000000000000000000000000000000000000000000000000000000000000000000000000000000000000000int && 0x1000000000000000000000000000000000000000000000000000000000000000000000000000000000000000000000000000000000000int < 0xe3231912d5bf60e610e1fff697ed6c6aint * 36734198463196484624023016788195177431833298649127735047148490821200539357960224151611328125int);
    } else if q == -130 {
        assert(entry_value(-130) == 0x8df5efabc5979c8fca8d3ffa1ef463c1int);
        assert(table_exponent(-130) == 429);
        assert(0x8df5efabc5979c8fca8d3ffa1ef463c1int * 7346839692639296924804603357639035486366659729825547009429698164240107871592044830322265625int < 0x200000000000000000000000000000000000000000000000000000000000000000000000000000000000000000000000000000000000int && 0x200000000000000000000000000000000000000000000000000000000000000000000000000000000000000000000000000000000000int < 0x8df5efabc5979c8fca8d3ffa1ef463c2int * 7346839692639296924804603357639035486366659729825547009429698164240107871592044830322265625int);
    } else if q == -129 {
        assert(entry_value(-129) == 0xb1736b96b6fd83b3bd308ff8a6b17cb2int);
        assert(table_exponent(-129) == 427);
        assert(0xb1736b96b6fd83b3bd308ff8a6b17cb2int * 1469367938527859384960920671527807097273331945965109401885939632848021574318408966064453125int < 0x80000000000000000000000000000000000000000000000000000000000000000000000000000000000000000000000000000000000int && 0x80000000000000000000000000000000000000000000000000000000000000000000000000000000000000000000000000000000000int < 0xb1736b96b6fd83b3bd308ff8a6b17cb3int * 1469367938527859384960920671527807097273331945965109401885939632848021574318408966064453125int);
    } else if q == -128 {
        assert(entry_value(-128) == 0xddd0467c64bce4a0ac7cb3f6d05ddbdeint);
        assert(table_exponent(-128) == 425);
        assert(0xddd0467c64bce4a0ac7cb3f6d05ddbdeint * 293873587705571876992184134305561419454666389193021880377187926569604314863681793212890625int < 0x20000000000000000000000000000000000000000000000000000000000000000000000000000000000000000000000000000000000int && 0x20000000000000000000000000000000000000000000000000000000000000000000000000000000000000000000000000000000000int < 0xddd0467c64bce4a0ac7cb3f6d05ddbdfint * 293873587705571876992184134305561419454666389193021880377187926569604314863681793212890625int);
    } else if q == -127 {
        assert(entry_value(-127) == 0x8aa22c0dbef60ee46bcdf07a423aa96bint);
        assert(table_exponent(-127) == 422);
        assert(0x8aa22c0dbef60ee46bcdf07a423aa96bint * 58774717541114375398436826861112283890933277838604376075437585313920862972736358642578125int < 0x4000000000000000000000000000000000000000000000000000000000000000000000000000000000000000000000000000000000int && 0x4000000000000000000000000000000000000000000000000000000000000000000000000000000000000000000000000000000000int < 0x8aa22c0dbef60ee46bcdf07a423aa96cint * 58774717541114375398436826861112283890933277838604376075437585313920862972736358642578125int);
    } else if q == -126 {
        assert(entry_value(-126) == 0xad4ab7112eb3929d86c16c98d2c953c6int);
        assert(table_exponent(-126) == 420);
        assert(0xad4ab7112eb3929d86c16c98d2c953c6int * 11754943508222875079687365372222456778186655567720875215087517062784172594547271728515625int < 0x1000000000000000000000000000000000000000000000000000000000000000000000000000000000000000000000000000000000int && 0x1000000000000000000000000000000000000000000000000000000000000000000000000000000000000000000000000000000000int < 0xad4ab7112eb3929d86c16c98d2c953c7int * 11754943508222875079687365372222456778186655567720875215087517062784172594547271728515625int);
    } else if q == -125 {
        assert(entry_value(-125) == 0xd89d64d57a607744e871c7bf077ba8b7int);
        assert(table_exponent(-125) == 418);
        assert(0xd89d64d57a607744e871c7bf077ba8b7int * 2350988701644575015937473074444491355637331113544175043017503412556834518909454345703125int < 0x400000000000000000000000000000000000000000000000000000000000000000000000000000000000000000000000000000000int && 0x400000000000000000000000000000000000000000000000000000000000000000000000000000000000000000000000000000000int < 0xd89d64d57a607744e871c7bf077ba8b8int * 2350988701644575015937473074444491355637331113544175043017503412556834518909454345703125int);
    } else if q == -124 {
        assert(entry_value(-124) == 0x87625f056c7c4a8b11471cd764ad4972int);
        assert(table_exponent(-124) == 415);
        assert(0x87625f056c7c4a8b11471cd764ad4972int * 470197740328915003187494614888898271127466222708835008603500682511366903781890869140625int < 0x80000000000000000000000000000000000000000000000000000000000000000000000000000000000000000000000000000000int && 0x80000000000000000000000000000000000000000000000000000000000000000000000000000000000000000000000000000000int < 0x87625f056c7c4a8b11471cd764ad4973int * 470197740328915003187494614888898271127466222708835008603500682511366903781890869140625int);
    } else if q == -123 {
        assert(entry_value(-123) == 0xa93af6c6c79b5d2dd598e40d3dd89bcfint);
        assert(table_exponent(-123) == 413);
        assert(0xa93af6c6c79b5d2dd598e40d3dd89bcfint * 94039548065783000637498922977779654225493244541767001720700136502273380756378173828125int < 0x20000000000000000000000000000000000000000000000000000000000000000000000000000000000000000000000000000000int && 0x20000000000000000000000000000000000000000000000000000000000000000000000000000000000000000000000000000000int < 0xa93af6c6c79b5d2dd598e40d3dd89bd0int * 94039548065783000637498922977779654225493244541767001720700136502273380756378173828125int);
    } else if q == -122 {
        assert(entry_value(-122) == 0xd389b478798234794aff1d108d4ec2c3int);
        assert(table_exponent(-122) == 411);
        assert(0xd389b478798234794aff1d108d4ec2c3int * 18807909613156600127499784595555930845098648908353400344140027300454676151275634765625int < 0x8000000000000000000000000000000000000000000000000000000000000000000000000000000000000000000000000000000int && 0x8000000000000000000000000000000000000000000000000000000000000000000000000000000000000000000000000000000int < 0xd389b478798234794aff1d108d4ec2c4int * 18807909613156600127499784595555930845098648908353400344140027300454676151275634765625int);
    } else if q == -121 {
        assert(entry_value(-121) == 0x843610cb4bf160cbcedf722a585139baint);
        assert(table_exponent(-121) == 408);
        assert(0x843610cb4bf160cbcedf722a585139baint * 3761581922631320025499956919111186169019729781670680068828005460090935230255126953125int < 0x1000000000000000000000000000000000000000000000000000000000000000000000000000000000000000000000000000000int && 0x1000000000000000000000000000000000000000000000000000000000000000000000000000000000000000000000000000000int < 0x843610cb4bf160cbcedf722a585139bbint * 3761581922631320025499956919111186169019729781670680068828005460090935230255126953125int);
    } else if q == -120 {
        assert(entry_value(-120) == 0xa54394fe1eedb8fec2974eb4ee658828int);
        assert(table_exponent(-120) == 406);
        assert(0xa54394fe1eedb8fec2974eb4ee658828int * 752316384526264005099991383822237233803945956334136013765601092018187046051025390625int < 0x400000000000000000000000000000000000000000000000000000000000000000000000000000000000000000000000000000int && 0x400000000000000000000000000000000000000000000000000000000000000000000000000000000000000000000000000000int < 0xa54394fe1eedb8fec2974eb4ee658829int * 752316384526264005099991383822237233803945956334136013765601092018187046051025390625int);
    } else if q == -119 {
        assert(entry_value(-119) == 0xce947a3da6a9273e733d226229feea32int);
        assert(table_exponent(-119) == 404);
        assert(0xce947a3da6a9273e733d226229feea32int * 150463276905252801019998276764447446760789191266827202753120218403637409210205078125int < 0x100000000000000000000000000000000000000000000000000000000000000000000000000000000000000000000000000000int && 0x100000000000000000000000000000000000000000000000000000000000000000000000000000000000000000000000000000int < 0xce947a3da6a9273e733d226229feea33int * 150463276905252801019998276764447446760789191266827202753120218403637409210205078125int);
    } else if q == -118 {
        assert(entry_value(-118) == 0x811ccc668829b8870806357d5a3f525fint);
        assert(table_exponent(-118) == 401);
        assert(0x811ccc668829b8870806357d5a3f525fint * 30092655381050560203999655352889489352157838253365440550624043680727481842041015625int < 0x20000000000000000000000000000000000000000000000000000000000000000000000000000000000000000000000000000int && 0x20000000000000000000000000000000000000000000000000000000000000000000000000000000000000000000000000000int < 0x811ccc668829b8870806357d5a3f5260int * 30092655381050560203999655352889489352157838253365440550624043680727481842041015625int);
    } else if q == -117 {
        assert(entry_value(-117) == 0xa163ff802a3426a8ca07c2dcb0cf26f7int);
        assert(table_exponent(-117) == 399);
        assert(0xa163ff802a3426a8ca07c2dcb0cf26f7int * 6018531076210112040799931070577897870431567650673088110124808736145496368408203125int < 0x8000000000000000000000000000000000000000000000000000000000000000000000000000000000000000000000000000int && 0x8000000000000000000000000000000000000000000000000000000000000000000000000000000000000000000000000000int < 0xa163ff802a3426a8ca07c2dcb0cf26f8int * 6018531076210112040799931070577897870431567650673088110124808736145496368408203125int);
    } else if q == -116 {
        assert(entry_value(-116) == 0xc9bcff6034c13052fc89b393dd02f0b5int);
        assert(table_exponent(-116) == 397);
        assert(0xc9bcff6034c13052fc89b393dd02f0b5int * 1203706215242022408159986214115579574086313530134617622024961747229099273681640625int < 0x2000000000000000000000000000000000000000000000000000000000000000000000000000000000000000000000000000int && 0x2000000000000000000000000000000000000000000000000000000000000000000000000000000000000000000000000000int < 0xc9bcff6034c13052fc89b393dd02f0b6int * 1203706215242022408159986214115579574086313530134617622024961747229099273681640625int);
    } else if q == -115 {
        assert(entry_value(-115) == 0xfc2c3f3841f17c67bbac2078d443ace2int);
        assert(table_exponent(-115) == 395);
        assert(0xfc2c3f3841f17c67bbac2078d443ace2int * 240741243048404481631997242823115914817262706026923524404992349445819854736328125int < 0x800000000000000000000000000000000000000000000000000000000000000000000000000000000000000000000000000int && 0x800000000000000000000000000000000000000000000000000000000000000000000000000000000000000000000000000int < 0xfc2c3f3841f17c67bbac2078d443ace3int * 240741243048404481631997242823115914817262706026923524404992349445819854736328125int);
    } else if q == -114 {
        assert(entry_value(-114) == 0x9d9ba7832936edc0d54b944b84aa4c0dint);
        assert(table_exponent(-114) == 392);
        assert(0x9d9ba7832936edc0d54b944b84aa4c0dint * 48148248609680896326399448564623182963452541205384704880998469889163970947265625int < 0x100000000000000000000000000000000000000000000000000000000000000000000000000000000000000000000000000int && 0x100000000000000000000000000000000000000000000000000000000000000000000000000000000000000000000000000int < 0x9d9ba7832936edc0d54b944b84aa4c0eint * 48148248609680896326399448564623182963452541205384704880998469889163970947265625int);
    } else if q == -113 {
        assert(entry_value(-113) == 0xc5029163f384a9310a9e795e65d4df11int);
        assert(table_exponent(-113) == 390);
        assert(0xc5029163f384a9310a9e795e65d4df11int * 9629649721936179265279889712924636592690508241076940976199693977832794189453125int < 0x40000000000000000000000000000000000000000000000000000000000000000000000000000000000000000000000000int && 0x40000000000000000000000000000000000000000000000000000000000000000000000000000000000000000000000000int < 0xc5029163f384a9310a9e795e65d4df12int * 9629649721936179265279889712924636592690508241076940976199693977832794189453125int);
    } else if q == -112 {
        assert(entry_value(-112) == 0xf64335bcf065d37d4d4617b5ff4a16d5int);
        assert(table_exponent(-112) == 388);
        assert(0xf64335bcf065d37d4d4617b5ff4a16d5int * 1925929944387235853055977942584927318538101648215388195239938795566558837890625int < 0x10000000000000000000000000000000000000000000000000000000000000000000000000000000000000000000000000int && 0x10000000000000000000000000000000000000000000000000000000000000000000000000000000000000000000000000int < 0xf64335bcf065d37d4d4617b5ff4a16d6int * 1925929944387235853055977942584927318538101648215388195239938795566558837890625int);
    } else if q == -111 {
        assert(entry_value(-111) == 0x99ea0196163fa42e504bced1bf8e4e45int);
        assert(table_exponent(-111) == 385);
        assert(0x99ea0196163fa42e504bced1bf8e4e45int * 385185988877447170611195588516985463707620329643077639047987759113311767578125int < 0x2000000000000000000000000000000000000000000000000000000000000000000000000000000000000000000000000int && 0x2000000000000000000000000000000000000000000000000000000000000000000000000000000000000000000000000int < 0x99ea0196163fa42e504bced1bf8e4e46int * 385185988877447170611195588516985463707620329643077639047987759113311767578125int);
    } else if q == -110 {
        assert(entry_value(-110) == 0xc06481fb9bcf8d39e45ec2862f71e1d6int);
        assert(table_exponent(-110) == 383);
        assert(0xc06481fb9bcf8d39e45ec2862f71e1d6int * 77037197775489434122239117703397092741524065928615527809597551822662353515625int < 0x800000000000000000000000000000000000000000000000000000000000000000000000000000000000000000000000int && 0x800000000000000000000000000000000000000000000000000000000000000000000000000000000000000000000000int < 0xc06481fb9bcf8d39e45ec2862f71e1d7int * 77037197775489434122239117703397092741524065928615527809597551822662353515625int);
    } else if q == -109 {
        assert(entry_value(-109) == 0xf07da27a82c370885d767327bb4e5a4cint);
        assert(table_exponent(-109) == 381);
        assert(0xf07da27a82c370885d767327bb4e5a4cint * 15407439555097886824447823540679418548304813185723105561919510364532470703125int < 0x200000000000000000000000000000000000000000000000000000000000000000000000000000000000000000000000int && 0x200000000000000000000000000000000000000000000000000000000000000000000000000000000000000000000000int < 0xf07da27a82c370885d767327bb4e5a4dint * 15407439555097886824447823540679418548304813185723105561919510364532470703125int);
    } else if q == -108 {
        assert(entry_value(-108) == 0x964e858c91ba26553a6a07f8d510f86fint);
        assert(table_exponent(-108) == 378);
        assert(0x964e858c91ba26553a6a07f8d510f86fint * 3081487911019577364889564708135883709660962637144621112383902072906494140625int < 0x40000000000000000000000000000000000000000000000000000000000000000000000000000000000000000000000int && 0x40000000000000000000000000000000000000000000000000000000000000000000000000000000000000000000000int < 0x964e858c91ba26553a6a07f8d510f870int * 3081487911019577364889564708135883709660962637144621112383902072906494140625int);
    } else if q == -107 {
        assert(entry_value(-107) == 0xbbe226efb628afea890489f70a55368bint);
        assert(table_exponent(-107) == 376);
        assert(0xbbe226efb628afea890489f70a55368bint * 616297582203915472977912941627176741932192527428924222476780414581298828125int < 0x10000000000000000000000000000000000000000000000000000000000000000000000000000000000000000000000int && 0x10000000000000000000000000000000000000000000000000000000000000000000000000000000000000000000000int < 0xbbe226efb628afea890489f70a55368cint * 616297582203915472977912941627176741932192527428924222476780414581298828125int);
    } else if q == -106 {
        assert(entry_value(-106) == 0xeadab0aba3b2dbe52b45ac74ccea842eint);
        assert(table_exponent(-106) == 374);
        assert(0xeadab0aba3b2dbe52b45ac74ccea842eint * 123259516440783094595582588325435348386438505485784844495356082916259765625int < 0x4000000000000000000000000000000000000000000000000000000000000000000000000000000000000000000000int && 0x4000000000000000000000000000000000000000000000000000000000000000000000000000000000000000000000int < 0xeadab0aba3b2dbe52b45ac74ccea842fint * 123259516440783094595582588325435348386438505485784844495356082916259765625int);
    } else if q == -105 {
        assert(entry_value(-105) == 0x92c8ae6b464fc96f3b0b8bc90012929dint);
        assert(table_exponent(-105) == 371);
        assert(0x92c8ae6b464fc96f3b0b8bc90012929dint * 24651903288156618919116517665087069677287701097156968899071216583251953125int < 0x800000000000000000000000000000000000000000000000000000000000000000000000000000000000000000000int && 0x800000000000000000000000000000000000000000000000000000000000000000000000000000000000000000000int < 0x92c8ae6b464fc96f3b0b8bc90012929eint * 24651903288156618919116517665087069677287701097156968899071216583251953125int);
    } else if q == -104 {
        assert(entry_value(-104) == 0xb77ada0617e3bbcb09ce6ebb40173744int);
        assert(table_exponent(-104) == 369);
        assert(0xb77ada0617e3bbcb09ce6ebb40173744int * 4930380657631323783823303533017413935457540219431393779814243316650390625int < 0x200000000000000000000000000000000000000000000000000000000000000000000000000000000000000000000int && 0x200000000000000000000000000000000000000000000000000000000000000000000000000000000000000000000int < 0xb77ada0617e3bbcb09ce6ebb40173745int * 4930380657631323783823303533017413935457540219431393779814243316650390625int);
    } else if q == -103 {
        assert(entry_value(-103) == 0xe55990879ddcaabdcc420a6a101d0515int);
        assert(table_exponent(-103) == 367);
        assert(0xe55990879ddcaabdcc420a6a101d0515int * 986076131526264756764660706603482787091508043886278755962848663330078125int < 0x80000000000000000000000000000000000000000000000000000000000000000000000000000000000000000000int && 0x80000000000000000000000000000000000000000000000000000000000000000000000000000000000000000000int < 0xe55990879ddcaabdcc420a6a101d0516int * 986076131526264756764660706603482787091508043886278755962848663330078125int);
    }
}

/// A part of the entries of the table, each held against its power of five.
proof fn lemma_entries_8(q: int)
    requires
        -102 <= q <= -73,
    ensures
        approximates(q),
{
    lemma_pow5_values_1();
    lemma_pow5_values_2();
    lemma_pow2_values_3();
    lemma_pow2_values_7();
    lemma_pow2_values_8();
    lemma_pow2_values_9();
    if q == -102 {
        assert(entry_value(-102) == 0x8f57fa54c2a9eab69fa946824a12232dint);
        assert(table_exponent(-102) == 364);
        assert(0x8f57fa54c2a9eab69fa946824a12232dint * 197215226305252951352932141320696557418301608777255751192569732666015625int < 0x10000000000000000000000000000000000000000000000000000000000000000000000000000000000000000000int && 0x10000000000000000000000000000000000000000000000000000000000000000000000000000000000000000000int < 0x8f57fa54c2a9eab69fa946824a12232eint * 197215226305252951352932141320696557418301608777255751192569732666015625int);
    } else if q == -101 {
        assert(entry_value(-101) == 0xb32df8e9f354656447939822dc96abf9int);
        assert(table_exponent(-101) == 362);
        assert(0xb32df8e9f354656447939822dc96abf9int * 39443045261050590270586428264139311483660321755451150238513946533203125int < 0x4000000000000000000000000000000000000000000000000000000000000000000000000000000000000000000int && 0x4000000000000000000000000000000000000000000000000000000000000000000000000000000000000000000int < 0xb32df8e9f354656447939822dc96abfaint * 39443045261050590270586428264139311483660321755451150238513946533203125int);
    } else if q == -100 {
        assert(entry_value(-100) == 0xdff9772470297ebd59787e2b93bc56f7int);
        assert(table_exponent(-100) == 360);
        assert(0xdff9772470297ebd59787e2b93bc56f7int * 7888609052210118054117285652827862296732064351090230047702789306640625int < 0x1000000000000000000000000000000000000000000000000000000000000000000000000000000000000000000int && 0x1000000000000000000000000000000000000000000000000000000000000000000000000000000000000000000int < 0xdff9772470297ebd59787e2b93bc56f8int * 7888609052210118054117285652827862296732064351090230047702789306640625int);
    } else if q == -99 {
        assert(entry_value(-99) == 0x8bfbea76c619ef3657eb4edb3c55b65aint);
        assert(table_exponent(-99) == 357);
        assert(0x8bfbea76c619ef3657eb4edb3c55b65aint * 1577721810442023610823457130565572459346412870218046009540557861328125int < 0x200000000000000000000000000000000000000000000000000000000000000000000000000000000000000000int && 0x200000000000000000000000000000000000000000000000000000000000000000000000000000000000000000int < 0x8bfbea76c619ef3657eb4edb3c55b65bint * 1577721810442023610823457130565572459346412870218046009540557861328125int);
    } else if q == -98 {
        assert(entry_value(-98) == 0xaefae51477a06b03ede622920b6b23f1int);
        assert(table_exponent(-98) == 355);
        assert(0xaefae51477a06b03ede622920b6b23f1int * 315544362088404722164691426113114491869282574043609201908111572265625int < 0x80000000000000000000000000000000000000000000000000000000000000000000000000000000000000000int && 0x80000000000000000000000000000000000000000000000000000000000000000000000000000000000000000int < 0xaefae51477a06b03ede622920b6b23f2int * 315544362088404722164691426113114491869282574043609201908111572265625int);
    } else if q == -97 {
        assert(entry_value(-97) == 0xdab99e59958885c4e95fab368e45ecedint);
        assert(table_exponent(-97) == 353);
        assert(0xdab99e59958885c4e95fab368e45ecedint * 63108872417680944432938285222622898373856514808721840381622314453125int < 0x20000000000000000000000000000000000000000000000000000000000000000000000000000000000000000int && 0x20000000000000000000000000000000000000000000000000000000000000000000000000000000000000000int < 0xdab99e59958885c4e95fab368e45eceeint * 63108872417680944432938285222622898373856514808721840381622314453125int);
    } else if q == -96 {
        assert(entry_value(-96) == 0x88b402f7fd75539b11dbcb0218ebb414int);
        assert(table_exponent(-96) == 350);
        assert(0x88b402f7fd75539b11dbcb0218ebb414int * 12621774483536188886587657044524579674771302961744368076324462890625int < 0x4000000000000000000000000000000000000000000000000000000000000000000000000000000000000000int && 0x4000000000000000000000000000000000000000000000000000000000000000000000000000000000000000int < 0x88b402f7fd75539b11dbcb0218ebb415int * 12621774483536188886587657044524579674771302961744368076324462890625int);
    } else if q == -95 {
        assert(entry_value(-95) == 0xaae103b5fcd2a881d652bdc29f26a119int);
        assert(table_exponent(-95) == 348);
        assert(0xaae103b5fcd2a881d652bdc29f26a119int * 2524354896707237777317531408904915934954260592348873615264892578125int < 0x1000000000000000000000000000000000000000000000000000000000000000000000000000000000000000int && 0x1000000000000000000000000000000000000000000000000000000000000000000000000000000000000000int < 0xaae103b5fcd2a881d652bdc29f26a11aint * 2524354896707237777317531408904915934954260592348873615264892578125int);
    } else if q == -94 {
        assert(entry_value(-94) == 0xd59944a37c0752a24be76d3346f0495fint);
        assert(table_exponent(-94) == 346);
        assert(0xd59944a37c0752a24be76d3346f0495fint * 504870979341447555463506281780983186990852118469774723052978515625int < 0x400000000000000000000000000000000000000000000000000000000000000000000000000000000000000int && 0x400000000000000000000000000000000000000000000000000000000000000000000000000000000000000int < 0xd59944a37c0752a24be76d3346f04960int * 504870979341447555463506281780983186990852118469774723052978515625int);
    } else if q == -93 {
        assert(entry_value(-93) == 0x857fcae62d8493a56f70a4400c562ddbint);
        assert(table_exponent(-93) == 343);
        assert(0x857fcae62d8493a56f70a4400c562ddbint * 100974195868289511092701256356196637398170423693954944610595703125int < 0x80000000000000000000000000000000000000000000000000000000000000000000000000000000000000int && 0x80000000000000000000000000000000000000000000000000000000000000000000000000000000000000int < 0x857fcae62d8493a56f70a4400c562ddcint * 100974195868289511092701256356196637398170423693954944610595703125int);
    } else if q == -92 {
        assert(entry_value(-92) == 0xa6dfbd9fb8e5b88ecb4ccd500f6bb952int);
        assert(table_exponent(-92) == 341);
        assert(0xa6dfbd9fb8e5b88ecb4ccd500f6bb952int * 20194839173657902218540251271239327479634084738790988922119140625int < 0x20000000000000000000000000000000000000000000000000000000000000000000000000000000000000int && 0x20000000000000000000000000000000000000000000000000000000000000000000000000000000000000int < 0xa6dfbd9fb8e5b88ecb4ccd500f6bb953int * 20194839173657902218540251271239327479634084738790988922119140625int);
    } else if q == -91 {
        assert(entry_value(-91) == 0xd097ad07a71f26b27e2000a41346a7a7int);
        assert(table_exponent(-91) == 339);
        assert(0xd097ad07a71f26b27e2000a41346a7a7int * 4038967834731580443708050254247865495926816947758197784423828125int < 0x8000000000000000000000000000000000000000000000000000000000000000000000000000000000000int && 0x8000000000000000000000000000000000000000000000000000000000000000000000000000000000000int < 0xd097ad07a71f26b27e2000a41346a7a8int * 4038967834731580443708050254247865495926816947758197784423828125int);
    } else if q == -90 {
        assert(entry_value(-90) == 0x825ecc24c873782f8ed400668c0c28c8int);
        assert(table_exponent(-90) == 336);
        assert(0x825ecc24c873782f8ed400668c0c28c8int * 807793566946316088741610050849573099185363389551639556884765625int < 0x1000000000000000000000000000000000000000000000000000000000000000000000000000000000000int && 0x1000000000000000000000000000000000000000000000000000000000000000000000000000000000000int < 0x825ecc24c873782f8ed400668c0c28c9int * 807793566946316088741610050849573099185363389551639556884765625int);
    } else if q == -89 {
        assert(entry_value(-89) == 0xa2f67f2dfa90563b728900802f0f32faint);
        assert(table_exponent(-89) == 334);
        assert(0xa2f67f2dfa90563b728900802f0f32faint * 161558713389263217748322010169914619837072677910327911376953125int < 0x400000000000000000000000000000000000000000000000000000000000000000000000000000000000int && 0x400000000000000000000000000000000000000000000000000000000000000000000000000000000000int < 0xa2f67f2dfa90563b728900802f0f32fbint * 161558713389263217748322010169914619837072677910327911376953125int);
    } else if q == -88 {
        assert(entry_value(-88) == 0xcbb41ef979346bca4f2b40a03ad2ffb9int);
        assert(table_exponent(-88) == 332);
        assert(0xcbb41ef979346bca4f2b40a03ad2ffb9int * 32311742677852643549664402033982923967414535582065582275390625int < 0x100000000000000000000000000000000000000000000000000000000000000000000000000000000000int && 0x100000000000000000000000000000000000000000000000000000000000000000000000000000000000int < 0xcbb41ef979346bca4f2b40a03ad2ffbaint * 32311742677852643549664402033982923967414535582065582275390625int);
    } else if q == -87 {
        assert(entry_value(-87) == 0xfea126b7d78186bce2f610c84987bfa8int);
        assert(table_exponent(-87) == 330);
        assert(0xfea126b7d78186bce2f610c84987bfa8int * 6462348535570528709932880406796584793482907116413116455078125int < 0x40000000000000000000000000000000000000000000000000000000000000000000000000000000000int && 0x40000000000000000000000000000000000000000000000000000000000000000000000000000000000int < 0xfea126b7d78186bce2f610c84987bfa9int * 6462348535570528709932880406796584793482907116413116455078125int);
    } else if q == -86 {
        assert(entry_value(-86) == 0x9f24b832e6b0f4360dd9ca7d2df4d7c9int);
        assert(table_exponent(-86) == 327);
        assert(0x9f24b832e6b0f4360dd9ca7d2df4d7c9int * 1292469707114105741986576081359316958696581423282623291015625int < 0x8000000000000000000000000000000000000000000000000000000000000000000000000000000000int && 0x8000000000000000000000000000000000000000000000000000000000000000000000000000000000int < 0x9f24b832e6b0f4360dd9ca7d2df4d7caint * 1292469707114105741986576081359316958696581423282623291015625int);
    } else if q == -85 {
        assert(entry_value(-85) == 0xc6ede63fa05d314391503d1c79720dbbint);
        assert(table_exponent(-85) == 325);
        assert(0xc6ede63fa05d314391503d1c79720dbbint * 258493941422821148397315216271863391739316284656524658203125int < 0x2000000000000000000000000000000000000000000000000000000000000000000000000000000000int && 0x2000000000000000000000000000000000000000000000000000000000000000000000000000000000int < 0xc6ede63fa05d314391503d1c79720dbcint * 258493941422821148397315216271863391739316284656524658203125int);
    } else if q == -84 {
        assert(entry_value(-84) == 0xf8a95fcf88747d9475a44c6397ce912aint);
        assert(table_exponent(-84) == 323);
        assert(0xf8a95fcf88747d9475a44c6397ce912aint * 51698788284564229679463043254372678347863256931304931640625int < 0x800000000000000000000000000000000000000000000000000000000000000000000000000000000int && 0x800000000000000000000000000000000000000000000000000000000000000000000000000000000int < 0xf8a95fcf88747d9475a44c6397ce912bint * 51698788284564229679463043254372678347863256931304931640625int);
    } else if q == -83 {
        assert(entry_value(-83) == 0x9b69dbe1b548ce7cc986afbe3ee11abaint);
        assert(table_exponent(-83) == 320);
        assert(0x9b69dbe1b548ce7cc986afbe3ee11abaint * 10339757656912845935892608650874535669572651386260986328125int < 0x100000000000000000000000000000000000000000000000000000000000000000000000000000000int && 0x100000000000000000000000000000000000000000000000000000000000000000000000000000000int < 0x9b69dbe1b548ce7cc986afbe3ee11abbint * 10339757656912845935892608650874535669572651386260986328125int);
    } else if q == -82 {
        assert(entry_value(-82) == 0xc24452da229b021bfbe85badce996168int);
        assert(table_exponent(-82) == 318);
        assert(0xc24452da229b021bfbe85badce996168int * 2067951531382569187178521730174907133914530277252197265625int < 0x40000000000000000000000000000000000000000000000000000000000000000000000000000000int && 0x40000000000000000000000000000000000000000000000000000000000000000000000000000000int < 0xc24452da229b021bfbe85badce996169int * 2067951531382569187178521730174907133914530277252197265625int);
    } else if q == -81 {
        assert(entry_value(-81) == 0xf2d56790ab41c2a2fae27299423fb9c3int);
        assert(table_exponent(-81) == 316);
        assert(0xf2d56790ab41c2a2fae27299423fb9c3int * 413590306276513837435704346034981426782906055450439453125int < 0x10000000000000000000000000000000000000000000000000000000000000000000000000000000int && 0x10000000000000000000000000000000000000000000000000000000000000000000000000000000int < 0xf2d56790ab41c2a2fae27299423fb9c4int * 413590306276513837435704346034981426782906055450439453125int);
    } else if q == -80 {
        assert(entry_value(-80) == 0x97c560ba6b0919a5dccd879fc967d41aint);
        assert(table_exponent(-80) == 313);
        assert(0x97c560ba6b0919a5dccd879fc967d41aint * 82718061255302767487140869206996285356581211090087890625int < 0x2000000000000000000000000000000000000000000000000000000000000000000000000000000int && 0x2000000000000000000000000000000000000000000000000000000000000000000000000000000int < 0x97c560ba6b0919a5dccd879fc967d41bint * 82718061255302767487140869206996285356581211090087890625int);
    } else if q == -79 {
        assert(entry_value(-79) == 0xbdb6b8e905cb600f5400e987bbc1c920int);
        assert(table_exponent(-79) == 311);
        assert(0xbdb6b8e905cb600f5400e987bbc1c920int * 16543612251060553497428173841399257071316242218017578125int < 0x800000000000000000000000000000000000000000000000000000000000000000000000000000int && 0x800000000000000000000000000000000000000000000000000000000000000000000000000000int < 0xbdb6b8e905cb600f5400e987bbc1c921int * 16543612251060553497428173841399257071316242218017578125int);
    } else if q == -78 {
        assert(entry_value(-78) == 0xed246723473e3813290123e9aab23b68int);
        assert(table_exponent(-78) == 309);
        assert(0xed246723473e3813290123e9aab23b68int * 3308722450212110699485634768279851414263248443603515625int < 0x200000000000000000000000000000000000000000000000000000000000000000000000000000int && 0x200000000000000000000000000000000000000000000000000000000000000000000000000000int < 0xed246723473e3813290123e9aab23b69int * 3308722450212110699485634768279851414263248443603515625int);
    } else if q == -77 {
        assert(entry_value(-77) == 0x9436c0760c86e30bf9a0b6720aaf6521int);
        assert(table_exponent(-77) == 306);
        assert(0x9436c0760c86e30bf9a0b6720aaf6521int * 661744490042422139897126953655970282852649688720703125int < 0x40000000000000000000000000000000000000000000000000000000000000000000000000000int && 0x40000000000000000000000000000000000000000000000000000000000000000000000000000int < 0x9436c0760c86e30bf9a0b6720aaf6522int * 661744490042422139897126953655970282852649688720703125int);
    } else if q == -76 {
        assert(entry_value(-76) == 0xb94470938fa89bcef808e40e8d5b3e69int);
        assert(table_exponent(-76) == 304);
        assert(0xb94470938fa89bcef808e40e8d5b3e69int * 132348898008484427979425390731194056570529937744140625int < 0x10000000000000000000000000000000000000000000000000000000000000000000000000000int && 0x10000000000000000000000000000000000000000000000000000000000000000000000000000int < 0xb94470938fa89bcef808e40e8d5b3e6aint * 132348898008484427979425390731194056570529937744140625int);
    } else if q == -75 {
        assert(entry_value(-75) == 0xe7958cb87392c2c2b60b1d1230b20e04int);
        assert(table_exponent(-75) == 302);
        assert(0xe7958cb87392c2c2b60b1d1230b20e04int * 26469779601696885595885078146238811314105987548828125int < 0x4000000000000000000000000000000000000000000000000000000000000000000000000000int && 0x4000000000000000000000000000000000000000000000000000000000000000000000000000int < 0xe7958cb87392c2c2b60b1d1230b20e05int * 26469779601696885595885078146238811314105987548828125int);
    } else if q == -74 {
        assert(entry_value(-74) == 0x90bd77f3483bb9b9b1c6f22b5e6f48c2int);
        assert(table_exponent(-74) == 299);
        assert(0x90bd77f3483bb9b9b1c6f22b5e6f48c2int * 5293955920339377119177015629247762262821197509765625int < 0x800000000000000000000000000000000000000000000000000000000000000000000000000int && 0x800000000000000000000000000000000000000000000000000000000000000000000000000int < 0x90bd77f3483bb9b9b1c6f22b5e6f48c3int * 5293955920339377119177015629247762262821197509765625int);
    } else if q == -73 {
        assert(entry_value(-73) == 0xb4ecd5f01a4aa8281e38aeb6360b1af3int);
        assert(table_exponent(-73) == 297);
        assert(0xb4ecd5f01a4aa8281e38aeb6360b1af3int * 1058791184067875423835403125849552452564239501953125int < 0x200000000000000000000000000000000000000000000000000000000000000000000000000int && 0x200000000000000000000000000000000000000000000000000000000000000000000000000int < 0xb4ecd5f01a4aa8281e38aeb6360b1af4int * 1058791184067875423835403125849552452564239501953125int);
    }
}

/// A part of the entries of the table, each held against its power of five.
proof fn lemma_entries_9(q: int)
    requires
        -72 <= q <= -43,
    ensures
        approximates(q),
{
    lemma_pow5_values_1();
    lemma_pow2_values_3();
    lemma_pow2_values_5();
    lemma_pow2_values_6();
    lemma_pow2_values_7();
    if q == -72 {
        assert(entry_value(-72) == 0xe2280b6c20dd523225c6da63c38de1b0int);
        assert(table_exponent(-72) == 295);
        assert(0xe2280b6c20dd523225c6da63c38de1b0int * 211758236813575084767080625169910490512847900390625int < 0x80000000000000000000000000000000000000000000000000000000000000000000000000int && 0x80000000000000000000000000000000000000000000000000000000000000000000000000int < 0xe2280b6c20dd523225c6da63c38de1b1int * 211758236813575084767080625169910490512847900390625int);
    } else if q == -71 {
        assert(entry_value(-71) == 0x8d590723948a535f579c487e5a38ad0eint);
        assert(table_exponent(-71) == 292);
        assert(0x8d590723948a535f579c487e5a38ad0eint * 42351647362715016953416125033982098102569580078125int < 0x10000000000000000000000000000000000000000000000000000000000000000000000000int && 0x10000000000000000000000000000000000000000000000000000000000000000000000000int < 0x8d590723948a535f579c487e5a38ad0fint * 42351647362715016953416125033982098102569580078125int);
    } else if q == -70 {
        assert(entry_value(-70) == 0xb0af48ec79ace8372d835a9df0c6d851int);
        assert(table_exponent(-70) == 290);
        assert(0xb0af48ec79ace8372d835a9df0c6d851int * 8470329472543003390683225006796419620513916015625int < 0x4000000000000000000000000000000000000000000000000000000000000000000000000int && 0x4000000000000000000000000000000000000000000000000000000000000000000000000int < 0xb0af48ec79ace8372d835a9df0c6d852int * 8470329472543003390683225006796419620513916015625int);
    } else if q == -69 {
        assert(entry_value(-69) == 0xdcdb1b2798182244f8e431456cf88e65int);
        assert(table_exponent(-69) == 288);
        assert(0xdcdb1b2798182244f8e431456cf88e65int * 1694065894508600678136645001359283924102783203125int < 0x1000000000000000000000000000000000000000000000000000000000000000000000000int && 0x1000000000000000000000000000000000000000000000000000000000000000000000000int < 0xdcdb1b2798182244f8e431456cf88e66int * 1694065894508600678136645001359283924102783203125int);
    } else if q == -68 {
        assert(entry_value(-68) == 0x8a08f0f8bf0f156b1b8e9ecb641b58ffint);
        assert(table_exponent(-68) == 285);
        assert(0x8a08f0f8bf0f156b1b8e9ecb641b58ffint * 338813178901720135627329000271856784820556640625int < 0x200000000000000000000000000000000000000000000000000000000000000000000000int && 0x200000000000000000000000000000000000000000000000000000000000000000000000int < 0x8a08f0f8bf0f156b1b8e9ecb641b5900int * 338813178901720135627329000271856784820556640625int);
    } else if q == -67 {
        assert(entry_value(-67) == 0xac8b2d36eed2dac5e272467e3d222f3fint);
        assert(table_exponent(-67) == 283);
        assert(0xac8b2d36eed2dac5e272467e3d222f3fint * 67762635780344027125465800054371356964111328125int < 0x80000000000000000000000000000000000000000000000000000000000000000000000int && 0x80000000000000000000000000000000000000000000000000000000000000000000000int < 0xac8b2d36eed2dac5e272467e3d222f40int * 67762635780344027125465800054371356964111328125int);
    } else if q == -66 {
        assert(entry_value(-66) == 0xd7adf884aa8791775b0ed81dcc6abb0fint);
        assert(table_exponent(-66) == 281);
        assert(0xd7adf884aa8791775b0ed81dcc6abb0fint * 13552527156068805425093160010874271392822265625int < 0x20000000000000000000000000000000000000000000000000000000000000000000000int && 0x20000000000000000000000000000000000000000000000000000000000000000000000int < 0xd7adf884aa8791775b0ed81dcc6abb10int * 13552527156068805425093160010874271392822265625int);
    } else if q == -65 {
        assert(entry_value(-65) == 0x86ccbb52ea94baea98e947129fc2b4e9int);
        assert(table_exponent(-65) == 278);
        assert(0x86ccbb52ea94baea98e947129fc2b4e9int * 2710505431213761085018632002174854278564453125int < 0x4000000000000000000000000000000000000000000000000000000000000000000000int && 0x4000000000000000000000000000000000000000000000000000000000000000000000int < 0x86ccbb52ea94baea98e947129fc2b4eaint * 2710505431213761085018632002174854278564453125int);
    } else if q == -64 {
        assert(entry_value(-64) == 0xa87fea27a539e9a53f2398d747b36224int);
        assert(table_exponent(-64) == 276);
        assert(0xa87fea27a539e9a53f2398d747b36224int * 542101086242752217003726400434970855712890625int < 0x1000000000000000000000000000000000000000000000000000000000000000000000int && 0x1000000000000000000000000000000000000000000000000000000000000000000000int < 0xa87fea27a539e9a53f2398d747b36225int * 542101086242752217003726400434970855712890625int);
    } else if q == -63 {
        assert(entry_value(-63) == 0xd29fe4b18e88640e8eec7f0d19a03aadint);
        assert(table_exponent(-63) == 274);
        assert(0xd29fe4b18e88640e8eec7f0d19a03aadint * 108420217248550443400745280086994171142578125int < 0x400000000000000000000000000000000000000000000000000000000000000000000int && 0x400000000000000000000000000000000000000000000000000000000000000000000int < 0xd29fe4b18e88640e8eec7f0d19a03aaeint * 108420217248550443400745280086994171142578125int);
    } else if q == -62 {
        assert(entry_value(-62) == 0x83a3eeeef9153e891953cf68300424acint);
        assert(table_exponent(-62) == 271);
        assert(0x83a3eeeef9153e891953cf68300424acint * 21684043449710088680149056017398834228515625int < 0x80000000000000000000000000000000000000000000000000000000000000000000int && 0x80000000000000000000000000000000000000000000000000000000000000000000int < 0x83a3eeeef9153e891953cf68300424adint * 21684043449710088680149056017398834228515625int);
    } else if q == -61 {
        assert(entry_value(-61) == 0xa48ceaaab75a8e2b5fa8c3423c052dd7int);
        assert(table_exponent(-61) == 269);
        assert(0xa48ceaaab75a8e2b5fa8c3423c052dd7int * 4336808689942017736029811203479766845703125int < 0x20000000000000000000000000000000000000000000000000000000000000000000int && 0x20000000000000000000000000000000000000000000000000000000000000000000int < 0xa48ceaaab75a8e2b5fa8c3423c052dd8int * 4336808689942017736029811203479766845703125int);
    } else if q == -60 {
        assert(entry_value(-60) == 0xcdb02555653131b63792f412cb06794dint);
        assert(table_exponent(-60) == 267);
        assert(0xcdb02555653131b63792f412cb06794dint * 867361737988403547205962240695953369140625int < 0x8000000000000000000000000000000000000000000000000000000000000000000int && 0x8000000000000000000000000000000000000000000000000000000000000000000int < 0xcdb02555653131b63792f412cb06794eint * 867361737988403547205962240695953369140625int);
    } else if q == -59 {
        assert(entry_value(-59) == 0x808e17555f3ebf11e2bbd88bbee40bd0int);
        assert(table_exponent(-59) == 264);
        assert(0x808e17555f3ebf11e2bbd88bbee40bd0int * 173472347597680709441192448139190673828125int < 0x1000000000000000000000000000000000000000000000000000000000000000000int && 0x1000000000000000000000000000000000000000000000000000000000000000000int < 0x808e17555f3ebf11e2bbd88bbee40bd1int * 173472347597680709441192448139190673828125int);
    } else if q == -58 {
        assert(entry_value(-58) == 0xa0b19d2ab70e6ed65b6aceaeae9d0ec4int);
        assert(table_exponent(-58) == 262);
        assert(0xa0b19d2ab70e6ed65b6aceaeae9d0ec4int * 34694469519536141888238489627838134765625int < 0x400000000000000000000000000000000000000000000000000000000000000000int && 0x400000000000000000000000000000000000000000000000000000000000000000int < 0xa0b19d2ab70e6ed65b6aceaeae9d0ec5int * 34694469519536141888238489627838134765625int);
    } else if q == -57 {
        assert(entry_value(-57) == 0xc8de047564d20a8bf245825a5a445275int);
        assert(table_exponent(-57) == 260);
        assert(0xc8de047564d20a8bf245825a5a445275int * 6938893903907228377647697925567626953125int < 0x100000000000000000000000000000000000000000000000000000000000000000int && 0x100000000000000000000000000000000000000000000000000000000000000000int < 0xc8de047564d20a8bf245825a5a445276int * 6938893903907228377647697925567626953125int);
    } else if q == -56 {
        assert(entry_value(-56) == 0xfb158592be068d2eeed6e2f0f0d56712int);
        assert(table_exponent(-56) == 258);
        assert(0xfb158592be068d2eeed6e2f0f0d56712int * 1387778780781445675529539585113525390625int < 0x40000000000000000000000000000000000000000000000000000000000000000int && 0x40000000000000000000000000000000000000000000000000000000000000000int < 0xfb158592be068d2eeed6e2f0f0d56713int * 1387778780781445675529539585113525390625int);
    } else if q == -55 {
        assert(entry_value(-55) == 0x9ced737bb6c4183d55464dd69685606bint);
        assert(table_exponent(-55) == 255);
        assert(0x9ced737bb6c4183d55464dd69685606bint * 277555756156289135105907917022705078125int < 0x8000000000000000000000000000000000000000000000000000000000000000int && 0x8000000000000000000000000000000000000000000000000000000000000000int < 0x9ced737bb6c4183d55464dd69685606cint * 277555756156289135105907917022705078125int);
    } else if q == -54 {
        assert(entry_value(-54) == 0xc428d05aa4751e4caa97e14c3c26b886int);
        assert(table_exponent(-54) == 253);
        assert(0xc428d05aa4751e4caa97e14c3c26b886int * 55511151231257827021181583404541015625int < 0x2000000000000000000000000000000000000000000000000000000000000000int && 0x2000000000000000000000000000000000000000000000000000000000000000int < 0xc428d05aa4751e4caa97e14c3c26b887int * 55511151231257827021181583404541015625int);
    } else if q == -53 {
        assert(entry_value(-53) == 0xf53304714d9265dfd53dd99f4b3066a8int);
        assert(table_exponent(-53) == 251);
        assert(0xf53304714d9265dfd53dd99f4b3066a8int * 11102230246251565404236316680908203125int < 0x800000000000000000000000000000000000000000000000000000000000000int && 0x800000000000000000000000000000000000000000000000000000000000000int < 0xf53304714d9265dfd53dd99f4b3066a9int * 11102230246251565404236316680908203125int);
    } else if q == -52 {
        assert(entry_value(-52) == 0x993fe2c6d07b7fabe546a8038efe4029int);
        assert(table_exponent(-52) == 248);
        assert(0x993fe2c6d07b7fabe546a8038efe4029int * 2220446049250313080847263336181640625int < 0x100000000000000000000000000000000000000000000000000000000000000int && 0x100000000000000000000000000000000000000000000000000000000000000int < 0x993fe2c6d07b7fabe546a8038efe402aint * 2220446049250313080847263336181640625int);
    } else if q == -51 {
        assert(entry_value(-51) == 0xbf8fdb78849a5f96de98520472bdd033int);
        assert(table_exponent(-51) == 246);
        assert(0xbf8fdb78849a5f96de98520472bdd033int * 444089209850062616169452667236328125int < 0x40000000000000000000000000000000000000000000000000000000000000int && 0x40000000000000000000000000000000000000000000000000000000000000int < 0xbf8fdb78849a5f96de98520472bdd034int * 444089209850062616169452667236328125int);
    } else if q == -50 {
        assert(entry_value(-50) == 0xef73d256a5c0f77c963e66858f6d4440int);
        assert(table_exponent(-50) == 244);
        assert(0xef73d256a5c0f77c963e66858f6d4440int * 88817841970012523233890533447265625int < 0x10000000000000000000000000000000000000000000000000000000000000int && 0x10000000000000000000000000000000000000000000000000000000000000int < 0xef73d256a5c0f77c963e66858f6d4441int * 88817841970012523233890533447265625int);
    } else if q == -49 {
        assert(entry_value(-49) == 0x95a8637627989aaddde7001379a44aa8int);
        assert(table_exponent(-49) == 241);
        assert(0x95a8637627989aaddde7001379a44aa8int * 17763568394002504646778106689453125int < 0x2000000000000000000000000000000000000000000000000000000000000int && 0x2000000000000000000000000000000000000000000000000000000000000int < 0x95a8637627989aaddde7001379a44aa9int * 17763568394002504646778106689453125int);
    } else if q == -48 {
        assert(entry_value(-48) == 0xbb127c53b17ec1595560c018580d5d52int);
        assert(table_exponent(-48) == 239);
        assert(0xbb127c53b17ec1595560c018580d5d52int * 3552713678800500929355621337890625int < 0x800000000000000000000000000000000000000000000000000000000000int && 0x800000000000000000000000000000000000000000000000000000000000int < 0xbb127c53b17ec1595560c018580d5d53int * 3552713678800500929355621337890625int);
    } else if q == -47 {
        assert(entry_value(-47) == 0xe9d71b689dde71afaab8f01e6e10b4a6int);
        assert(table_exponent(-47) == 237);
        assert(0xe9d71b689dde71afaab8f01e6e10b4a6int * 710542735760100185871124267578125int < 0x200000000000000000000000000000000000000000000000000000000000int && 0x200000000000000000000000000000000000000000000000000000000000int < 0xe9d71b689dde71afaab8f01e6e10b4a7int * 710542735760100185871124267578125int);
    } else if q == -46 {
        assert(entry_value(-46) == 0x9226712162ab070dcab3961304ca70e8int);
        assert(table_exponent(-46) == 234);
        assert(0x9226712162ab070dcab3961304ca70e8int * 142108547152020037174224853515625int < 0x40000000000000000000000000000000000000000000000000000000000int && 0x40000000000000000000000000000000000000000000000000000000000int < 0x9226712162ab070dcab3961304ca70e9int * 142108547152020037174224853515625int);
    } else if q == -45 {
        assert(entry_value(-45) == 0xb6b00d69bb55c8d13d607b97c5fd0d22int);
        assert(table_exponent(-45) == 232);
        assert(0xb6b00d69bb55c8d13d607b97c5fd0d22int * 28421709430404007434844970703125int < 0x10000000000000000000000000000000000000000000000000000000000int && 0x10000000000000000000000000000000000000000000000000000000000int < 0xb6b00d69bb55c8d13d607b97c5fd0d23int * 28421709430404007434844970703125int);
    } else if q == -44 {
        assert(entry_value(-44) == 0xe45c10c42a2b3b058cb89a7db77c506aint);
        assert(table_exponent(-44) == 230);
        assert(0xe45c10c42a2b3b058cb89a7db77c506aint * 5684341886080801486968994140625int < 0x4000000000000000000000000000000000000000000000000000000000int && 0x4000000000000000000000000000000000000000000000000000000000int < 0xe45c10c42a2b3b058cb89a7db77c506bint * 5684341886080801486968994140625int);
    } else if q == -43 {
        assert(entry_value(-43) == 0x8eb98a7a9a5b04e377f3608e92adb242int);
        assert(table_exponent(-43) == 227);
        assert(0x8eb98a7a9a5b04e377f3608e92adb242int * 1136868377216160297393798828125int < 0x800000000000000000000000000000000000000000000000000000000int && 0x800000000000000000000000000000000000000000000000000000000int < 0x8eb98a7a9a5b04e377f3608e92adb243int * 1136868377216160297393798828125int);
    }
}

/// A part of the entries of the table, each held against its power of five.
proof fn lemma_entries_10(q: int)
    requires
        -42 <= q <= -13,
    ensures
        approximates(q),
{
    lemma_pow5_values_0();
    lemma_pow5_values_1();
    lemma_pow2_values_3();
    lemma_pow2_values_4();
    lemma_pow2_values_5();
    if q == -42 {
        assert(entry_value(-42) == 0xb267ed1940f1c61c55f038b237591ed3int);
        assert(table_exponent(-42) == 225);
        assert(0xb267ed1940f1c61c55f038b237591ed3int * 227373675443232059478759765625int < 0x200000000000000000000000000000000000000000000000000000000int && 0x200000000000000000000000000000000000000000000000000000000int < 0xb267ed1940f1c61c55f038b237591ed4int * 227373675443232059478759765625int);
    } else if q == -41 {
        assert(entry_value(-41) == 0xdf01e85f912e37a36b6c46dec52f6688int);
        assert(table_exponent(-41) == 223);
        assert(0xdf01e85f912e37a36b6c46dec52f6688int * 45474735088646411895751953125int < 0x80000000000000000000000000000000000000000000000000000000int && 0x80000000000000000000000000000000000000000000000000000000int < 0xdf01e85f912e37a36b6c46dec52f6689int * 45474735088646411895751953125int);
    } else if q == -40 {
        assert(entry_value(-40) == 0x8b61313bbabce2c62323ac4b3b3da015int);
        assert(table_exponent(-40) == 220);
        assert(0x8b61313bbabce2c62323ac4b3b3da015int * 9094947017729282379150390625int < 0x10000000000000000000000000000000000000000000000000000000int && 0x10000000000000000000000000000000000000000000000000000000int < 0x8b61313bbabce2c62323ac4b3b3da016int * 9094947017729282379150390625int);
    } else if q == -39 {
        assert(entry_value(-39) == 0xae397d8aa96c1b77abec975e0a0d081aint);
        assert(table_exponent(-39) == 218);
        assert(0xae397d8aa96c1b77abec975e0a0d081aint * 1818989403545856475830078125int < 0x4000000000000000000000000000000000000000000000000000000int && 0x4000000000000000000000000000000000000000000000000000000int < 0xae397d8aa96c1b77abec975e0a0d081bint * 1818989403545856475830078125int);
    } else if q == -38 {
        assert(entry_value(-38) == 0xd9c7dced53c7225596e7bd358c904a21int);
        assert(table_exponent(-38) == 216);
        assert(0xd9c7dced53c7225596e7bd358c904a21int * 363797880709171295166015625int < 0x1000000000000000000000000000000000000000000000000000000int && 0x1000000000000000000000000000000000000000000000000000000int < 0xd9c7dced53c7225596e7bd358c904a22int * 363797880709171295166015625int);
    } else if q == -37 {
        assert(entry_value(-37) == 0x881cea14545c75757e50d64177da2e54int);
        assert(table_exponent(-37) == 213);
        assert(0x881cea14545c75757e50d64177da2e54int * 72759576141834259033203125int < 0x200000000000000000000000000000000000000000000000000000int && 0x200000000000000000000000000000000000000000000000000000int < 0x881cea14545c75757e50d64177da2e55int * 72759576141834259033203125int);
    } else if q == -36 {
        assert(entry_value(-36) == 0xaa242499697392d2dde50bd1d5d0b9e9int);
        assert(table_exponent(-36) == 211);
        assert(0xaa242499697392d2dde50bd1d5d0b9e9int * 14551915228366851806640625int < 0x80000000000000000000000000000000000000000000000000000int && 0x80000000000000000000000000000000000000000000000000000int < 0xaa242499697392d2dde50bd1d5d0b9eaint * 14551915228366851806640625int);
    } else if q == -35 {
        assert(entry_value(-35) == 0xd4ad2dbfc3d07787955e4ec64b44e864int);
        assert(table_exponent(-35) == 209);
        assert(0xd4ad2dbfc3d07787955e4ec64b44e864int * 2910383045673370361328125int < 0x20000000000000000000000000000000000000000000000000000int && 0x20000000000000000000000000000000000000000000000000000int < 0xd4ad2dbfc3d07787955e4ec64b44e865int * 2910383045673370361328125int);
    } else if q == -34 {
        assert(entry_value(-34) == 0x84ec3c97da624ab4bd5af13bef0b113eint);
        assert(table_exponent(-34) == 206);
        assert(0x84ec3c97da624ab4bd5af13bef0b113eint * 582076609134674072265625int < 0x4000000000000000000000000000000000000000000000000000int && 0x4000000000000000000000000000000000000000000000000000int < 0x84ec3c97da624ab4bd5af13bef0b113fint * 582076609134674072265625int);
    } else if q == -33 {
        assert(entry_value(-33) == 0xa6274bbdd0fadd61ecb1ad8aeacdd58eint);
        assert(table_exponent(-33) == 204);
        assert(0xa6274bbdd0fadd61ecb1ad8aeacdd58eint * 116415321826934814453125int < 0x1000000000000000000000000000000000000000000000000000int && 0x1000000000000000000000000000000000000000000000000000int < 0xa6274bbdd0fadd61ecb1ad8aeacdd58fint * 116415321826934814453125int);
    } else if q == -32 {
        assert(entry_value(-32) == 0xcfb11ead453994ba67de18eda5814af2int);
        assert(table_exponent(-32) == 202);
        assert(0xcfb11ead453994ba67de18eda5814af2int * 23283064365386962890625int < 0x400000000000000000000000000000000000000000000000000int && 0x400000000000000000000000000000000000000000000000000int < 0xcfb11ead453994ba67de18eda5814af3int * 23283064365386962890625int);
    } else if q == -31 {
        assert(entry_value(-31) == 0x81ceb32c4b43fcf480eacf948770ced7int);
        assert(table_exponent(-31) == 199);
        assert(0x81ceb32c4b43fcf480eacf948770ced7int * 4656612873077392578125int < 0x80000000000000000000000000000000000000000000000000int && 0x80000000000000000000000000000000000000000000000000int < 0x81ceb32c4b43fcf480eacf948770ced8int * 4656612873077392578125int);
    } else if q == -30 {
        assert(entry_value(-30) == 0xa2425ff75e14fc31a1258379a94d028dint);
        assert(table_exponent(-30) == 197);
        assert(0xa2425ff75e14fc31a1258379a94d028dint * 931322574615478515625int < 0x20000000000000000000000000000000000000000000000000int && 0x20000000000000000000000000000000000000000000000000int < 0xa2425ff75e14fc31a1258379a94d028eint * 931322574615478515625int);
    } else if q == -29 {
        assert(entry_value(-29) == 0xcad2f7f5359a3b3e096ee45813a04330int);
        assert(table_exponent(-29) == 195);
        assert(0xcad2f7f5359a3b3e096ee45813a04330int * 186264514923095703125int < 0x8000000000000000000000000000000000000000000000000int && 0x8000000000000000000000000000000000000000000000000int < 0xcad2f7f5359a3b3e096ee45813a04331int * 186264514923095703125int);
    } else if q == -28 {
        assert(entry_value(-28) == 0xfd87b5f28300ca0d8bca9d6e188853fcint);
        assert(table_exponent(-28) == 193);
        assert(0xfd87b5f28300ca0d8bca9d6e188853fcint * 37252902984619140625int < 0x2000000000000000000000000000000000000000000000000int && 0x2000000000000000000000000000000000000000000000000int < 0xfd87b5f28300ca0d8bca9d6e188853fdint * 37252902984619140625int);
    } else if q == -27 {
        assert(entry_value(-27) == 0x9e74d1b791e07e48775ea264cf55347eint);
        assert(table_exponent(-27) == 190);
        assert(0x9e74d1b791e07e48775ea264cf55347dint * 7450580596923828125int < 0x400000000000000000000000000000000000000000000000int && 0x400000000000000000000000000000000000000000000000int < 0x9e74d1b791e07e48775ea264cf55347eint * 7450580596923828125int);
    } else if q == -26 {
        assert(entry_value(-26) == 0xc612062576589dda95364afe032a819eint);
        assert(table_exponent(-26) == 188);
        assert(0xc612062576589dda95364afe032a819dint * 1490116119384765625int < 0x100000000000000000000000000000000000000000000000int && 0x100000000000000000000000000000000000000000000000int < 0xc612062576589dda95364afe032a819eint * 1490116119384765625int);
    } else if q == -25 {
        assert(entry_value(-25) == 0xf79687aed3eec5513a83ddbd83f52205int);
        assert(table_exponent(-25) == 186);
        assert(0xf79687aed3eec5513a83ddbd83f52204int * 298023223876953125int < 0x40000000000000000000000000000000000000000000000int && 0x40000000000000000000000000000000000000000000000int < 0xf79687aed3eec5513a83ddbd83f52205int * 298023223876953125int);
    } else if q == -24 {
        assert(entry_value(-24) == 0x9abe14cd44753b52c4926a9672793543int);
        assert(table_exponent(-24) == 183);
        assert(0x9abe14cd44753b52c4926a9672793542int * 59604644775390625int < 0x8000000000000000000000000000000000000000000000int && 0x8000000000000000000000000000000000000000000000int < 0x9abe14cd44753b52c4926a9672793543int * 59604644775390625int);
    } else if q == -23 {
        assert(entry_value(-23) == 0xc16d9a0095928a2775b7053c0f178294int);
        assert(table_exponent(-23) == 181);
        assert(0xc16d9a0095928a2775b7053c0f178293int * 11920928955078125int < 0x2000000000000000000000000000000000000000000000int && 0x2000000000000000000000000000000000000000000000int < 0xc16d9a0095928a2775b7053c0f178294int * 11920928955078125int);
    } else if q == -22 {
        assert(entry_value(-22) == 0xf1c90080baf72cb15324c68b12dd6339int);
        assert(table_exponent(-22) == 179);
        assert(0xf1c90080baf72cb15324c68b12dd6338int * 2384185791015625int < 0x800000000000000000000000000000000000000000000int && 0x800000000000000000000000000000000000000000000int < 0xf1c90080baf72cb15324c68b12dd6339int * 2384185791015625int);
    } else if q == -21 {
        assert(entry_value(-21) == 0x971da05074da7beed3f6fc16ebca5e04int);
        assert(table_exponent(-21) == 176);
        assert(0x971da05074da7beed3f6fc16ebca5e03int * 476837158203125int < 0x100000000000000000000000000000000000000000000int && 0x100000000000000000000000000000000000000000000int < 0x971da05074da7beed3f6fc16ebca5e04int * 476837158203125int);
    } else if q == -20 {
        assert(entry_value(-20) == 0xbce5086492111aea88f4bb1ca6bcf585int);
        assert(table_exponent(-20) == 174);
        assert(0xbce5086492111aea88f4bb1ca6bcf584int * 95367431640625int < 0x40000000000000000000000000000000000000000000int && 0x40000000000000000000000000000000000000000000int < 0xbce5086492111aea88f4bb1ca6bcf585int * 95367431640625int);
    } else if q == -19 {
        assert(entry_value(-19) == 0xec1e4a7db69561a52b31e9e3d06c32e6int);
        assert(table_exponent(-19) == 172);
        assert(0xec1e4a7db69561a52b31e9e3d06c32e5int * 19073486328125int < 0x10000000000000000000000000000000000000000000int && 0x10000000000000000000000000000000000000000000int < 0xec1e4a7db69561a52b31e9e3d06c32e6int * 19073486328125int);
    } else if q == -18 {
        assert(entry_value(-18) == 0x9392ee8e921d5d073aff322e62439fd0int);
        assert(table_exponent(-18) == 169);
        assert(0x9392ee8e921d5d073aff322e62439fcfint * 3814697265625int < 0x2000000000000000000000000000000000000000000int && 0x2000000000000000000000000000000000000000000int < 0x9392ee8e921d5d073aff322e62439fd0int * 3814697265625int);
    } else if q == -17 {
        assert(entry_value(-17) == 0xb877aa3236a4b44909befeb9fad487c3int);
        assert(table_exponent(-17) == 167);
        assert(0xb877aa3236a4b44909befeb9fad487c2int * 762939453125int < 0x800000000000000000000000000000000000000000int && 0x800000000000000000000000000000000000000000int < 0xb877aa3236a4b44909befeb9fad487c3int * 762939453125int);
    } else if q == -16 {
        assert(entry_value(-16) == 0xe69594bec44de15b4c2ebe687989a9b4int);
        assert(table_exponent(-16) == 165);
        assert(0xe69594bec44de15b4c2ebe687989a9b3int * 152587890625int < 0x200000000000000000000000000000000000000000int && 0x200000000000000000000000000000000000000000int < 0xe69594bec44de15b4c2ebe687989a9b4int * 152587890625int);
    } else if q == -15 {
        assert(entry_value(-15) == 0x901d7cf73ab0acd90f9d37014bf60a11int);
        assert(table_exponent(-15) == 162);
        assert(0x901d7cf73ab0acd90f9d37014bf60a10int * 30517578125int < 0x40000000000000000000000000000000000000000int && 0x40000000000000000000000000000000000000000int < 0x901d7cf73ab0acd90f9d37014bf60a11int * 30517578125int);
    } else if q == -14 {
        assert(entry_value(-14) == 0xb424dc35095cd80f538484c19ef38c95int);
        assert(table_exponent(-14) == 160);
        assert(0xb424dc35095cd80f538484c19ef38c94int * 6103515625int < 0x10000000000000000000000000000000000000000int && 0x10000000000000000000000000000000000000000int < 0xb424dc35095cd80f538484c19ef38c95int * 6103515625int);
    } else if q == -13 {
        assert(entry_value(-13) == 0xe12e13424bb40e132865a5f206b06fbaint);
        assert(table_exponent(-13) == 158);
        assert(0xe12e13424bb40e132865a5f206b06fb9int * 1220703125int < 0x4000000000000000000000000000000000000000int && 0x4000000000000000000000000000000000000000int < 0xe12e13424bb40e132865a5f206b06fbaint * 1220703125int);
    }
}

/// A part of the entries of the table, each held against its power of five.
proof fn lemma_entries_11(q: int)
    requires
        -12 <= q <= 17,
    ensures
        approximates(q),
{
    lemma_pow5_values_0();
    lemma_pow2_values_2();
    lemma_pow2_values_3();
    if q == -12 {
        assert(entry_value(-12) == 0x8cbccc096f5088cbf93f87b7442e45d4int);
        assert(table_exponent(-12) == 155);
        assert(0x8cbccc096f5088cbf93f87b7442e45d3int * 244140625int < 0x800000000000000000000000000000000000000int && 0x800000000000000000000000000000000000000int < 0x8cbccc096f5088cbf93f87b7442e45d4int * 244140625int);
    } else if q == -11 {
        assert(entry_value(-11) == 0xafebff0bcb24aafef78f69a51539d749int);
        assert(table_exponent(-11) == 153);
        assert(0xafebff0bcb24aafef78f69a51539d748int * 48828125int < 0x200000000000000000000000000000000000000int && 0x200000000000000000000000000000000000000int < 0xafebff0bcb24aafef78f69a51539d749int * 48828125int);
    } else if q == -10 {
        assert(entry_value(-10) == 0xdbe6fecebdedd5beb573440e5a884d1cint);
        assert(table_exponent(-10) == 151);
        assert(0xdbe6fecebdedd5beb573440e5a884d1bint * 9765625int < 0x80000000000000000000000000000000000000int && 0x80000000000000000000000000000000000000int < 0xdbe6fecebdedd5beb573440e5a884d1cint * 9765625int);
    } else if q == -9 {
        assert(entry_value(-9) == 0x89705f4136b4a59731680a88f8953031int);
        assert(table_exponent(-9) == 148);
        assert(0x89705f4136b4a59731680a88f8953030int * 1953125int < 0x10000000000000000000000000000000000000int && 0x10000000000000000000000000000000000000int < 0x89705f4136b4a59731680a88f8953031int * 1953125int);
    } else if q == -8 {
        assert(entry_value(-8) == 0xabcc77118461cefcfdc20d2b36ba7c3eint);
        assert(table_exponent(-8) == 146);
        assert(0xabcc77118461cefcfdc20d2b36ba7c3dint * 390625int < 0x4000000000000000000000000000000000000int && 0x4000000000000000000000000000000000000int < 0xabcc77118461cefcfdc20d2b36ba7c3eint * 390625int);
    } else if q == -7 {
        assert(entry_value(-7) == 0xd6bf94d5e57a42bc3d32907604691b4dint);
        assert(table_exponent(-7) == 144);
        assert(0xd6bf94d5e57a42bc3d32907604691b4cint * 78125int < 0x1000000000000000000000000000000000000int && 0x1000000000000000000000000000000000000int < 0xd6bf94d5e57a42bc3d32907604691b4dint * 78125int);
    } else if q == -6 {
        assert(entry_value(-6) == 0x8637bd05af6c69b5a63f9a49c2c1b110int);
        assert(table_exponent(-6) == 141);
        assert(0x8637bd05af6c69b5a63f9a49c2c1b10fint * 15625int < 0x200000000000000000000000000000000000int && 0x200000000000000000000000000000000000int < 0x8637bd05af6c69b5a63f9a49c2c1b110int * 15625int);
    } else if q == -5 {
        assert(entry_value(-5) == 0xa7c5ac471b4784230fcf80dc33721d54int);
        assert(table_exponent(-5) == 139);
        assert(0xa7c5ac471b4784230fcf80dc33721d53int * 3125int < 0x80000000000000000000000000000000000int && 0x80000000000000000000000000000000000int < 0xa7c5ac471b4784230fcf80dc33721d54int * 3125int);
    } else if q == -4 {
        assert(entry_value(-4) == 0xd1b71758e219652bd3c36113404ea4a9int);
        assert(table_exponent(-4) == 137);
        assert(0xd1b71758e219652bd3c36113404ea4a8int * 625int < 0x20000000000000000000000000000000000int && 0x20000000000000000000000000000000000int < 0xd1b71758e219652bd3c36113404ea4a9int * 625int);
    } else if q == -3 {
        assert(entry_value(-3) == 0x83126e978d4fdf3b645a1cac083126eaint);
        assert(table_exponent(-3) == 134);
        assert(0x83126e978d4fdf3b645a1cac083126e9int * 125int < 0x4000000000000000000000000000000000int && 0x4000000000000000000000000000000000int < 0x83126e978d4fdf3b645a1cac083126eaint * 125int);
    } else if q == -2 {
        assert(entry_value(-2) == 0xa3d70a3d70a3d70a3d70a3d70a3d70a4int);
        assert(table_exponent(-2) == 132);
        assert(0xa3d70a3d70a3d70a3d70a3d70a3d70a3int * 25int < 0x1000000000000000000000000000000000int && 0x1000000000000000000000000000000000int < 0xa3d70a3d70a3d70a3d70a3d70a3d70a4int * 25int);
    } else if q == -1 {
        assert(entry_value(-1) == 0xcccccccccccccccccccccccccccccccdint);
        assert(table_exponent(-1) == 130);
        assert(0xccccccccccccccccccccccccccccccccint * 5int < 0x400000000000000000000000000000000int && 0x400000000000000000000000000000000int < 0xcccccccccccccccccccccccccccccccdint * 5int);
    } else if q == 0 {
        assert(entry_value(0) == 0x80000000000000000000000000000000int);
        assert(table_exponent(0) == 127);
        assert(0x80000000000000000000000000000000int == 1int * 0x80000000000000000000000000000000int);
    } else if q == 1 {
        assert(entry_value(1) == 0xa0000000000000000000000000000000int);
        assert(table_exponent(1) == 125);
        assert(0xa0000000000000000000000000000000int == 5int * 0x20000000000000000000000000000000int);
    } else if q == 2 {
        assert(entry_value(2) == 0xc8000000000000000000000000000000int);
        assert(table_exponent(2) == 123);
        assert(0xc8000000000000000000000000000000int == 25int * 0x8000000000000000000000000000000int);
    } else if q == 3 {
        assert(entry_value(3) == 0xfa000000000000000000000000000000int);
        assert(table_exponent(3) == 121);
        assert(0xfa000000000000000000000000000000int == 125int * 0x2000000000000000000000000000000int);
    } else if q == 4 {
        assert(entry_value(4) == 0x9c400000000000000000000000000000int);
        assert(table_exponent(4) == 118);
        assert(0x9c400000000000000000000000000000int == 625int * 0x400000000000000000000000000000int);
    } else if q == 5 {
        assert(entry_value(5) == 0xc3500000000000000000000000000000int);
        assert(table_exponent(5) == 116);
        assert(0xc3500000000000000000000000000000int == 3125int * 0x100000000000000000000000000000int);
    } else if q == 6 {
        assert(entry_value(6) == 0xf4240000000000000000000000000000int);
        assert(table_exponent(6) == 114);
        assert(0xf4240000000000000000000000000000int == 15625int * 0x40000000000000000000000000000int);
    } else if q == 7 {
        assert(entry_value(7) == 0x98968000000000000000000000000000int);
        assert(table_exponent(7) == 111);
        assert(0x98968000000000000000000000000000int == 78125int * 0x8000000000000000000000000000int);
    } else if q == 8 {
        assert(entry_value(8) == 0xbebc2000000000000000000000000000int);
        assert(table_exponent(8) == 109);
        assert(0xbebc2000000000000000000000000000int == 390625int * 0x2000000000000000000000000000int);
    } else if q == 9 {
        assert(entry_value(9) == 0xee6b2800000000000000000000000000int);
        assert(table_exponent(9) == 107);
        assert(0xee6b2800000000000000000000000000int == 1953125int * 0x800000000000000000000000000int);
    } else if q == 10 {
        assert(entry_value(10) == 0x9502f900000000000000000000000000int);
        assert(table_exponent(10) == 104);
        assert(0x9502f900000000000000000000000000int == 9765625int * 0x100000000000000000000000000int);
    } else if q == 11 {
        assert(entry_value(11) == 0xba43b740000000000000000000000000int);
        assert(table_exponent(11) == 102);
        assert(0xba43b740000000000000000000000000int == 48828125int * 0x40000000000000000000000000int);
    } else if q == 12 {
        assert(entry_value(12) == 0xe8d4a510000000000000000000000000int);
        assert(table_exponent(12) == 100);
        assert(0xe8d4a510000000000000000000000000int == 244140625int * 0x10000000000000000000000000int);
    } else if q == 13 {
        assert(entry_value(13) == 0x9184e72a000000000000000000000000int);
        assert(table_exponent(13) == 97);
        assert(0x9184e72a000000000000000000000000int == 1220703125int * 0x2000000000000000000000000int);
    } else if q == 14 {
        assert(entry_value(14) == 0xb5e620f4800000000000000000000000int);
        assert(table_exponent(14) == 95);
        assert(0xb5e620f4800000000000000000000000int == 6103515625int * 0x800000000000000000000000int);
    } else if q == 15 {
        assert(entry_value(15) == 0xe35fa931a00000000000000000000000int);
        assert(table_exponent(15) == 93);
        assert(0xe35fa931a00000000000000000000000int == 30517578125int * 0x200000000000000000000000int);
    } else if q == 16 {
        assert(entry_value(16) == 0x8e1bc9bf040000000000000000000000int);
        assert(table_exponent(16) == 90);
        assert(0x8e1bc9bf040000000000000000000000int == 152587890625int * 0x40000000000000000000000int);
    } else if q == 17 {
        assert(entry_value(17) == 0xb1a2bc2ec50000000000000000000000int);
        assert(table_exponent(17) == 88);
        assert(0xb1a2bc2ec50000000000000000000000int == 762939453125int * 0x10000000000000000000000int);
    }
}

/// A part of the entries of the table, each held against its power of five.
proof fn lemma_entries_12(q: int)
    requires
        18 <= q <= 47,
    ensures
        approximates(q),
{
    lemma_pow5_values_0();
    lemma_pow5_values_1();
    lemma_pow2_values_0();
    lemma_pow2_values_1();
    lemma_pow2_values_2();
    lemma_pow2_values_3();
    if q == 18 {
        assert(entry_value(18) == 0xde0b6b3a764000000000000000000000int);
        assert(table_exponent(18) == 86);
        assert(0xde0b6b3a764000000000000000000000int == 3814697265625int * 0x4000000000000000000000int);
    } else if q == 19 {
        assert(entry_value(19) == 0x8ac7230489e800000000000000000000int);
        assert(table_exponent(19) == 83);
        assert(0x8ac7230489e800000000000000000000int == 19073486328125int * 0x800000000000000000000int);
    } else if q == 20 {
        assert(entry_value(20) == 0xad78ebc5ac6200000000000000000000int);
        assert(table_exponent(20) == 81);
        assert(0xad78ebc5ac6200000000000000000000int == 95367431640625int * 0x200000000000000000000int);
    } else if q == 21 {
        assert(entry_value(21) == 0xd8d726b7177a80000000000000000000int);
        assert(table_exponent(21) == 79);
        assert(0xd8d726b7177a80000000000000000000int == 476837158203125int * 0x80000000000000000000int);
    } else if q == 22 {
        assert(entry_value(22) == 0x878678326eac90000000000000000000int);
        assert(table_exponent(22) == 76);
        assert(0x878678326eac90000000000000000000int == 2384185791015625int * 0x10000000000000000000int);
    } else if q == 23 {
        assert(entry_value(23) == 0xa968163f0a57b4000000000000000000int);
        assert(table_exponent(23) == 74);
        assert(0xa968163f0a57b4000000000000000000int == 11920928955078125int * 0x4000000000000000000int);
    } else if q == 24 {
        assert(entry_value(24) == 0xd3c21bcecceda1000000000000000000int);
        assert(table_exponent(24) == 72);
        assert(0xd3c21bcecceda1000000000000000000int == 59604644775390625int * 0x1000000000000000000int);
    } else if q == 25 {
        assert(entry_value(25) == 0x84595161401484a00000000000000000int);
        assert(table_exponent(25) == 69);
        assert(0x84595161401484a00000000000000000int == 298023223876953125int * 0x200000000000000000int);
    } else if q == 26 {
        assert(entry_value(26) == 0xa56fa5b99019a5c80000000000000000int);
        assert(table_exponent(26) == 67);
        assert(0xa56fa5b99019a5c80000000000000000int == 1490116119384765625int * 0x80000000000000000int);
    } else if q == 27 {
        assert(entry_value(27) == 0xcecb8f27f4200f3a0000000000000000int);
        assert(table_exponent(27) == 65);
        assert(0xcecb8f27f4200f3a0000000000000000int == 7450580596923828125int * 0x20000000000000000int);
    } else if q == 28 {
        assert(entry_value(28) == 0x813f3978f89409844000000000000000int);
        assert(table_exponent(28) == 62);
        assert(0x813f3978f89409844000000000000000int == 37252902984619140625int * 0x4000000000000000int);
    } else if q == 29 {
        assert(entry_value(29) == 0xa18f07d736b90be55000000000000000int);
        assert(table_exponent(29) == 60);
        assert(0xa18f07d736b90be55000000000000000int == 186264514923095703125int * 0x1000000000000000int);
    } else if q == 30 {
        assert(entry_value(30) == 0xc9f2c9cd04674edea400000000000000int);
        assert(table_exponent(30) == 58);
        assert(0xc9f2c9cd04674edea400000000000000int == 931322574615478515625int * 0x400000000000000int);
    } else if q == 31 {
        assert(entry_value(31) == 0xfc6f7c40458122964d00000000000000int);
        assert(table_exponent(31) == 56);
        assert(0xfc6f7c40458122964d00000000000000int == 4656612873077392578125int * 0x100000000000000int);
    } else if q == 32 {
        assert(entry_value(32) == 0x9dc5ada82b70b59df020000000000000int);
        assert(table_exponent(32) == 53);
        assert(0x9dc5ada82b70b59df020000000000000int == 23283064365386962890625int * 0x20000000000000int);
    } else if q == 33 {
        assert(entry_value(33) == 0xc5371912364ce3056c28000000000000int);
        assert(table_exponent(33) == 51);
        assert(0xc5371912364ce3056c28000000000000int == 116415321826934814453125int * 0x8000000000000int);
    } else if q == 34 {
        assert(entry_value(34) == 0xf684df56c3e01bc6c732000000000000int);
        assert(table_exponent(34) == 49);
        assert(0xf684df56c3e01bc6c732000000000000int == 582076609134674072265625int * 0x2000000000000int);
    } else if q == 35 {
        assert(entry_value(35) == 0x9a130b963a6c115c3c7f400000000000int);
        assert(table_exponent(35) == 46);
        assert(0x9a130b963a6c115c3c7f400000000000int == 2910383045673370361328125int * 0x400000000000int);
    } else if q == 36 {
        assert(entry_value(36) == 0xc097ce7bc90715b34b9f100000000000int);
        assert(table_exponent(36) == 44);
        assert(0xc097ce7bc90715b34b9f100000000000int == 14551915228366851806640625int * 0x100000000000int);
    } else if q == 37 {
        assert(entry_value(37) == 0xf0bdc21abb48db201e86d40000000000int);
        assert(table_exponent(37) == 42);
        assert(0xf0bdc21abb48db201e86d40000000000int == 72759576141834259033203125int * 0x40000000000int);
    } else if q == 38 {
        assert(entry_value(38) == 0x96769950b50d88f41314448000000000int);
        assert(table_exponent(38) == 39);
        assert(0x96769950b50d88f41314448000000000int == 363797880709171295166015625int * 0x8000000000int);
    } else if q == 39 {
        assert(entry_value(39) == 0xbc143fa4e250eb3117d955a000000000int);
        assert(table_exponent(39) == 37);
        assert(0xbc143fa4e250eb3117d955a000000000int == 1818989403545856475830078125int * 0x2000000000int);
    } else if q == 40 {
        assert(entry_value(40) == 0xeb194f8e1ae525fd5dcfab0800000000int);
        assert(table_exponent(40) == 35);
        assert(0xeb194f8e1ae525fd5dcfab0800000000int == 9094947017729282379150390625int * 0x800000000int);
    } else if q == 41 {
        assert(entry_value(41) == 0x92efd1b8d0cf37be5aa1cae500000000int);
        assert(table_exponent(41) == 32);
        assert(0x92efd1b8d0cf37be5aa1cae500000000int == 45474735088646411895751953125int * 0x100000000int);
    } else if q == 42 {
        assert(entry_value(42) == 0xb7abc627050305adf14a3d9e40000000int);
        assert(table_exponent(42) == 30);
        assert(0xb7abc627050305adf14a3d9e40000000int == 227373675443232059478759765625int * 0x40000000int);
    } else if q == 43 {
        assert(entry_value(43) == 0xe596b7b0c643c7196d9ccd05d0000000int);
        assert(table_exponent(43) == 28);
        assert(0xe596b7b0c643c7196d9ccd05d0000000int == 1136868377216160297393798828125int * 0x10000000int);
    } else if q == 44 {
        assert(entry_value(44) == 0x8f7e32ce7bea5c6fe4820023a2000000int);
        assert(table_exponent(44) == 25);
        assert(0x8f7e32ce7bea5c6fe4820023a2000000int == 5684341886080801486968994140625int * 0x2000000int);
    } else if q == 45 {
        assert(entry_value(45) == 0xb35dbf821ae4f38bdda2802c8a800000int);
        assert(table_exponent(45) == 23);
        assert(0xb35dbf821ae4f38bdda2802c8a800000int == 28421709430404007434844970703125int * 0x800000int);
    } else if q == 46 {
        assert(entry_value(46) == 0xe0352f62a19e306ed50b2037ad200000int);
        assert(table_exponent(46) == 21);
        assert(0xe0352f62a19e306ed50b2037ad200000int == 142108547152020037174224853515625int * 0x200000int);
    } else if q == 47 {
        assert(entry_value(47) == 0x8c213d9da502de454526f422cc340000int);
        assert(table_exponent(47) == 18);
        assert(0x8c213d9da502de454526f422cc340000int == 710542735760100185871124267578125int * 0x40000int);
    }
}

/// A part of the entries of the table, each held against its power of five.
proof fn lemma_entries_13(q: int)
    requires
        48 <= q <= 77,
    ensures
        approximates(q),
{
    lemma_pow5_values_1();
    lemma_pow2_values_0();
    lemma_pow2_values_1();
    lemma_pow2_values_3();
    if q == 48 {
        assert(entry_value(48) == 0xaf298d050e4395d69670b12b7f410000int);
        assert(table_exponent(48) == 16);
        assert(0xaf298d050e4395d69670b12b7f410000int == 3552713678800500929355621337890625int * 0x10000int);
    } else if q == 49 {
        assert(entry_value(49) == 0xdaf3f04651d47b4c3c0cdd765f114000int);
        assert(table_exponent(49) == 14);
        assert(0xdaf3f04651d47b4c3c0cdd765f114000int == 17763568394002504646778106689453125int * 0x4000int);
    } else if q == 50 {
        assert(entry_value(50) == 0x88d8762bf324cd0fa5880a69fb6ac800int);
        assert(table_exponent(50) == 11);
        assert(0x88d8762bf324cd0fa5880a69fb6ac800int == 88817841970012523233890533447265625int * 0x800int);
    } else if q == 51 {
        assert(entry_value(51) == 0xab0e93b6efee00538eea0d047a457a00int);
        assert(table_exponent(51) == 9);
        assert(0xab0e93b6efee00538eea0d047a457a00int == 444089209850062616169452667236328125int * 0x200int);
    } else if q == 52 {
        assert(entry_value(52) == 0xd5d238a4abe9806872a4904598d6d880int);
        assert(table_exponent(52) == 7);
        assert(0xd5d238a4abe9806872a4904598d6d880int == 2220446049250313080847263336181640625int * 0x80int);
    } else if q == 53 {
        assert(entry_value(53) == 0x85a36366eb71f04147a6da2b7f864750int);
        assert(table_exponent(53) == 4);
        assert(0x85a36366eb71f04147a6da2b7f864750int == 11102230246251565404236316680908203125int * 0x10int);
    } else if q == 54 {
        assert(entry_value(54) == 0xa70c3c40a64e6c51999090b65f67d924int);
        assert(table_exponent(54) == 2);
        assert(0xa70c3c40a64e6c51999090b65f67d924int == 55511151231257827021181583404541015625int * 0x4int);
    } else if q == 55 {
        assert(entry_value(55) == 0xd0cf4b50cfe20765fff4b4e3f741cf6dint);
        assert(table_exponent(55) == 0);
        assert(0xd0cf4b50cfe20765fff4b4e3f741cf6dint == 277555756156289135105907917022705078125int * 0x1int);
    } else if q == 56 {
        assert(entry_value(56) == 0x82818f1281ed449fbff8f10e7a8921a4int);
        assert(table_exponent(56) == -3);
        assert(0x82818f1281ed449fbff8f10e7a8921a4int * 0x8int <= 1387778780781445675529539585113525390625int && 1387778780781445675529539585113525390625int < 0x82818f1281ed449fbff8f10e7a8921a5int * 0x8int);
    } else if q == 57 {
        assert(entry_value(57) == 0xa321f2d7226895c7aff72d52192b6a0dint);
        assert(table_exponent(57) == -5);
        assert(0xa321f2d7226895c7aff72d52192b6a0dint * 0x20int <= 6938893903907228377647697925567626953125int && 6938893903907228377647697925567626953125int < 0xa321f2d7226895c7aff72d52192b6a0eint * 0x20int);
    } else if q == 58 {
        assert(entry_value(58) == 0xcbea6f8ceb02bb399bf4f8a69f764490int);
        assert(table_exponent(58) == -7);
        assert(0xcbea6f8ceb02bb399bf4f8a69f764490int * 0x80int <= 34694469519536141888238489627838134765625int && 34694469519536141888238489627838134765625int < 0xcbea6f8ceb02bb399bf4f8a69f764491int * 0x80int);
    } else if q == 59 {
        assert(entry_value(59) == 0xfee50b7025c36a0802f236d04753d5b4int);
        assert(table_exponent(59) == -9);
        assert(0xfee50b7025c36a0802f236d04753d5b4int * 0x200int <= 173472347597680709441192448139190673828125int && 173472347597680709441192448139190673828125int < 0xfee50b7025c36a0802f236d04753d5b5int * 0x200int);
    } else if q == 60 {
        assert(entry_value(60) == 0x9f4f2726179a224501d762422c946590int);
        assert(table_exponent(60) == -12);
        assert(0x9f4f2726179a224501d762422c946590int * 0x1000int <= 867361737988403547205962240695953369140625int && 867361737988403547205962240695953369140625int < 0x9f4f2726179a224501d762422c946591int * 0x1000int);
    } else if q == 61 {
        assert(entry_value(61) == 0xc722f0ef9d80aad6424d3ad2b7b97ef5int);
        assert(table_exponent(61) == -14);
        assert(0xc722f0ef9d80aad6424d3ad2b7b97ef5int * 0x4000int <= 4336808689942017736029811203479766845703125int && 4336808689942017736029811203479766845703125int < 0xc722f0ef9d80aad6424d3ad2b7b97ef6int * 0x4000int);
    } else if q == 62 {
        assert(entry_value(62) == 0xf8ebad2b84e0d58bd2e0898765a7deb2int);
        assert(table_exponent(62) == -16);
        assert(0xf8ebad2b84e0d58bd2e0898765a7deb2int * 0x10000int <= 21684043449710088680149056017398834228515625int && 21684043449710088680149056017398834228515625int < 0xf8ebad2b84e0d58bd2e0898765a7deb3int * 0x10000int);
    } else if q == 63 {
        assert(entry_value(63) == 0x9b934c3b330c857763cc55f49f88eb2fint);
        assert(table_exponent(63) == -19);
        assert(0x9b934c3b330c857763cc55f49f88eb2fint * 0x80000int <= 108420217248550443400745280086994171142578125int && 108420217248550443400745280086994171142578125int < 0x9b934c3b330c857763cc55f49f88eb30int * 0x80000int);
    } else if q == 64 {
        assert(entry_value(64) == 0xc2781f49ffcfa6d53cbf6b71c76b25fbint);
        assert(table_exponent(64) == -21);
        assert(0xc2781f49ffcfa6d53cbf6b71c76b25fbint * 0x200000int <= 542101086242752217003726400434970855712890625int && 542101086242752217003726400434970855712890625int < 0xc2781f49ffcfa6d53cbf6b71c76b25fcint * 0x200000int);
    } else if q == 65 {
        assert(entry_value(65) == 0xf316271c7fc3908a8bef464e3945ef7aint);
        assert(table_exponent(65) == -23);
        assert(0xf316271c7fc3908a8bef464e3945ef7aint * 0x800000int <= 2710505431213761085018632002174854278564453125int && 2710505431213761085018632002174854278564453125int < 0xf316271c7fc3908a8bef464e3945ef7bint * 0x800000int);
    } else if q == 66 {
        assert(entry_value(66) == 0x97edd871cfda3a5697758bf0e3cbb5acint);
        assert(table_exponent(66) == -26);
        assert(0x97edd871cfda3a5697758bf0e3cbb5acint * 0x4000000int <= 13552527156068805425093160010874271392822265625int && 13552527156068805425093160010874271392822265625int < 0x97edd871cfda3a5697758bf0e3cbb5adint * 0x4000000int);
    } else if q == 67 {
        assert(entry_value(67) == 0xbde94e8e43d0c8ec3d52eeed1cbea317int);
        assert(table_exponent(67) == -28);
        assert(0xbde94e8e43d0c8ec3d52eeed1cbea317int * 0x10000000int <= 67762635780344027125465800054371356964111328125int && 67762635780344027125465800054371356964111328125int < 0xbde94e8e43d0c8ec3d52eeed1cbea318int * 0x10000000int);
    } else if q == 68 {
        assert(entry_value(68) == 0xed63a231d4c4fb274ca7aaa863ee4bddint);
        assert(table_exponent(68) == -30);
        assert(0xed63a231d4c4fb274ca7aaa863ee4bddint * 0x40000000int <= 338813178901720135627329000271856784820556640625int && 338813178901720135627329000271856784820556640625int < 0xed63a231d4c4fb274ca7aaa863ee4bdeint * 0x40000000int);
    } else if q == 69 {
        assert(entry_value(69) == 0x945e455f24fb1cf88fe8caa93e74ef6aint);
        assert(table_exponent(69) == -33);
        assert(0x945e455f24fb1cf88fe8caa93e74ef6aint * 0x200000000int <= 1694065894508600678136645001359283924102783203125int && 1694065894508600678136645001359283924102783203125int < 0x945e455f24fb1cf88fe8caa93e74ef6bint * 0x200000000int);
    } else if q == 70 {
        assert(entry_value(70) == 0xb975d6b6ee39e436b3e2fd538e122b44int);
        assert(table_exponent(70) == -35);
        assert(0xb975d6b6ee39e436b3e2fd538e122b44int * 0x800000000int <= 8470329472543003390683225006796419620513916015625int && 8470329472543003390683225006796419620513916015625int < 0xb975d6b6ee39e436b3e2fd538e122b45int * 0x800000000int);
    } else if q == 71 {
        assert(entry_value(71) == 0xe7d34c64a9c85d4460dbbca87196b616int);
        assert(table_exponent(71) == -37);
        assert(0xe7d34c64a9c85d4460dbbca87196b616int * 0x2000000000int <= 42351647362715016953416125033982098102569580078125int && 42351647362715016953416125033982098102569580078125int < 0xe7d34c64a9c85d4460dbbca87196b617int * 0x2000000000int);
    } else if q == 72 {
        assert(entry_value(72) == 0x90e40fbeea1d3a4abc8955e946fe31cdint);
        assert(table_exponent(72) == -40);
        assert(0x90e40fbeea1d3a4abc8955e946fe31cdint * 0x10000000000int <= 211758236813575084767080625169910490512847900390625int && 211758236813575084767080625169910490512847900390625int < 0x90e40fbeea1d3a4abc8955e946fe31ceint * 0x10000000000int);
    } else if q == 73 {
        assert(entry_value(73) == 0xb51d13aea4a488dd6babab6398bdbe41int);
        assert(table_exponent(73) == -42);
        assert(0xb51d13aea4a488dd6babab6398bdbe41int * 0x40000000000int <= 1058791184067875423835403125849552452564239501953125int && 1058791184067875423835403125849552452564239501953125int < 0xb51d13aea4a488dd6babab6398bdbe42int * 0x40000000000int);
    } else if q == 74 {
        assert(entry_value(74) == 0xe264589a4dcdab14c696963c7eed2dd1int);
        assert(table_exponent(74) == -44);
        assert(0xe264589a4dcdab14c696963c7eed2dd1int * 0x100000000000int <= 5293955920339377119177015629247762262821197509765625int && 5293955920339377119177015629247762262821197509765625int < 0xe264589a4dcdab14c696963c7eed2dd2int * 0x100000000000int);
    } else if q == 75 {
        assert(entry_value(75) == 0x8d7eb76070a08aecfc1e1de5cf543ca2int);
        assert(table_exponent(75) == -47);
        assert(0x8d7eb76070a08aecfc1e1de5cf543ca2int * 0x800000000000int <= 26469779601696885595885078146238811314105987548828125int && 26469779601696885595885078146238811314105987548828125int < 0x8d7eb76070a08aecfc1e1de5cf543ca3int * 0x800000000000int);
    } else if q == 76 {
        assert(entry_value(76) == 0xb0de65388cc8ada83b25a55f43294bcbint);
        assert(table_exponent(76) == -49);
        assert(0xb0de65388cc8ada83b25a55f43294bcbint * 0x2000000000000int <= 132348898008484427979425390731194056570529937744140625int && 132348898008484427979425390731194056570529937744140625int < 0xb0de65388cc8ada83b25a55f43294bccint * 0x2000000000000int);
    } else if q == 77 {
        assert(entry_value(77) == 0xdd15fe86affad91249ef0eb713f39ebeint);
        assert(table_exponent(77) == -51);
        assert(0xdd15fe86affad91249ef0eb713f39ebeint * 0x8000000000000int <= 661744490042422139897126953655970282852649688720703125int && 661744490042422139897126953655970282852649688720703125int < 0xdd15fe86affad91249ef0eb713f39ebfint * 0x8000000000000int);
    }
}

/// A part of the entries of the table, each held against its power of five.
proof fn lemma_entries_14(q: int)
    requires
        78 <= q <= 107,
    ensures
        approximates(q),
{
    lemma_pow5_values_1();
    lemma_pow5_values_2();
    lemma_pow2_values_1();
    lemma_pow2_values_2();
    lemma_pow2_values_3();
    if q == 78 {
        assert(entry_value(78) == 0x8a2dbf142dfcc7ab6e3569326c784337int);
        assert(table_exponent(78) == -54);
        assert(0x8a2dbf142dfcc7ab6e3569326c784337int * 0x40000000000000int <= 3308722450212110699485634768279851414263248443603515625int && 3308722450212110699485634768279851414263248443603515625int < 0x8a2dbf142dfcc7ab6e3569326c784338int * 0x40000000000000int);
    } else if q == 79 {
        assert(entry_value(79) == 0xacb92ed9397bf99649c2c37f07965404int);
        assert(table_exponent(79) == -56);
        assert(0xacb92ed9397bf99649c2c37f07965404int * 0x100000000000000int <= 16543612251060553497428173841399257071316242218017578125int && 16543612251060553497428173841399257071316242218017578125int < 0xacb92ed9397bf99649c2c37f07965405int * 0x100000000000000int);
    } else if q == 80 {
        assert(entry_value(80) == 0xd7e77a8f87daf7fbdc33745ec97be906int);
        assert(table_exponent(80) == -58);
        assert(0xd7e77a8f87daf7fbdc33745ec97be906int * 0x400000000000000int <= 82718061255302767487140869206996285356581211090087890625int && 82718061255302767487140869206996285356581211090087890625int < 0xd7e77a8f87daf7fbdc33745ec97be907int * 0x400000000000000int);
    } else if q == 81 {
        assert(entry_value(81) == 0x86f0ac99b4e8dafd69a028bb3ded71a3int);
        assert(table_exponent(81) == -61);
        assert(0x86f0ac99b4e8dafd69a028bb3ded71a3int * 0x2000000000000000int <= 413590306276513837435704346034981426782906055450439453125int && 413590306276513837435704346034981426782906055450439453125int < 0x86f0ac99b4e8dafd69a028bb3ded71a4int * 0x2000000000000000int);
    } else if q == 82 {
        assert(entry_value(82) == 0xa8acd7c0222311bcc40832ea0d68ce0cint);
        assert(table_exponent(82) == -63);
        assert(0xa8acd7c0222311bcc40832ea0d68ce0cint * 0x8000000000000000int <= 2067951531382569187178521730174907133914530277252197265625int && 2067951531382569187178521730174907133914530277252197265625int < 0xa8acd7c0222311bcc40832ea0d68ce0dint * 0x8000000000000000int);
    } else if q == 83 {
        assert(entry_value(83) == 0xd2d80db02aabd62bf50a3fa490c30190int);
        assert(table_exponent(83) == -65);
        assert(0xd2d80db02aabd62bf50a3fa490c30190int * 0x20000000000000000int <= 10339757656912845935892608650874535669572651386260986328125int && 10339757656912845935892608650874535669572651386260986328125int < 0xd2d80db02aabd62bf50a3fa490c30191int * 0x20000000000000000int);
    } else if q == 84 {
        assert(entry_value(84) == 0x83c7088e1aab65db792667c6da79e0faint);
        assert(table_exponent(84) == -68);
        assert(0x83c7088e1aab65db792667c6da79e0faint * 0x100000000000000000int <= 51698788284564229679463043254372678347863256931304931640625int && 51698788284564229679463043254372678347863256931304931640625int < 0x83c7088e1aab65db792667c6da79e0fbint * 0x100000000000000000int);
    } else if q == 85 {
        assert(entry_value(85) == 0xa4b8cab1a1563f52577001b891185938int);
        assert(table_exponent(85) == -70);
        assert(0xa4b8cab1a1563f52577001b891185938int * 0x400000000000000000int <= 258493941422821148397315216271863391739316284656524658203125int && 258493941422821148397315216271863391739316284656524658203125int < 0xa4b8cab1a1563f52577001b891185939int * 0x400000000000000000int);
    } else if q == 86 {
        assert(entry_value(86) == 0xcde6fd5e09abcf26ed4c0226b55e6f86int);
        assert(table_exponent(86) == -72);
        assert(0xcde6fd5e09abcf26ed4c0226b55e6f86int * 0x1000000000000000000int <= 1292469707114105741986576081359316958696581423282623291015625int && 1292469707114105741986576081359316958696581423282623291015625int < 0xcde6fd5e09abcf26ed4c0226b55e6f87int * 0x1000000000000000000int);
    } else if q == 87 {
        assert(entry_value(87) == 0x80b05e5ac60b6178544f8158315b05b4int);
        assert(table_exponent(87) == -75);
        assert(0x80b05e5ac60b6178544f8158315b05b4int * 0x8000000000000000000int <= 6462348535570528709932880406796584793482907116413116455078125int && 6462348535570528709932880406796584793482907116413116455078125int < 0x80b05e5ac60b6178544f8158315b05b5int * 0x8000000000000000000int);
    } else if q == 88 {
        assert(entry_value(88) == 0xa0dc75f1778e39d6696361ae3db1c721int);
        assert(table_exponent(88) == -77);
        assert(0xa0dc75f1778e39d6696361ae3db1c721int * 0x20000000000000000000int <= 32311742677852643549664402033982923967414535582065582275390625int && 32311742677852643549664402033982923967414535582065582275390625int < 0xa0dc75f1778e39d6696361ae3db1c722int * 0x20000000000000000000int);
    } else if q == 89 {
        assert(entry_value(89) == 0xc913936dd571c84c03bc3a19cd1e38e9int);
        assert(table_exponent(89) == -79);
        assert(0xc913936dd571c84c03bc3a19cd1e38e9int * 0x80000000000000000000int <= 161558713389263217748322010169914619837072677910327911376953125int && 161558713389263217748322010169914619837072677910327911376953125int < 0xc913936dd571c84c03bc3a19cd1e38eaint * 0x80000000000000000000int);
    } else if q == 90 {
        assert(entry_value(90) == 0xfb5878494ace3a5f04ab48a04065c723int);
        assert(table_exponent(90) == -81);
        assert(0xfb5878494ace3a5f04ab48a04065c723int * 0x200000000000000000000int <= 807793566946316088741610050849573099185363389551639556884765625int && 807793566946316088741610050849573099185363389551639556884765625int < 0xfb5878494ace3a5f04ab48a04065c724int * 0x200000000000000000000int);
    } else if q == 91 {
        assert(entry_value(91) == 0x9d174b2dcec0e47b62eb0d64283f9c76int);
        assert(table_exponent(91) == -84);
        assert(0x9d174b2dcec0e47b62eb0d64283f9c76int * 0x1000000000000000000000int <= 4038967834731580443708050254247865495926816947758197784423828125int && 4038967834731580443708050254247865495926816947758197784423828125int < 0x9d174b2dcec0e47b62eb0d64283f9c77int * 0x1000000000000000000000int);
    } else if q == 92 {
        assert(entry_value(92) == 0xc45d1df942711d9a3ba5d0bd324f8394int);
        assert(table_exponent(92) == -86);
        assert(0xc45d1df942711d9a3ba5d0bd324f8394int * 0x4000000000000000000000int <= 20194839173657902218540251271239327479634084738790988922119140625int && 20194839173657902218540251271239327479634084738790988922119140625int < 0xc45d1df942711d9a3ba5d0bd324f8395int * 0x4000000000000000000000int);
    } else if q == 93 {
        assert(entry_value(93) == 0xf5746577930d6500ca8f44ec7ee36479int);
        assert(table_exponent(93) == -88);
        assert(0xf5746577930d6500ca8f44ec7ee36479int * 0x10000000000000000000000int <= 100974195868289511092701256356196637398170423693954944610595703125int && 100974195868289511092701256356196637398170423693954944610595703125int < 0xf5746577930d6500ca8f44ec7ee3647aint * 0x10000000000000000000000int);
    } else if q == 94 {
        assert(entry_value(94) == 0x9968bf6abbe85f207e998b13cf4e1ecbint);
        assert(table_exponent(94) == -91);
        assert(0x9968bf6abbe85f207e998b13cf4e1ecbint * 0x80000000000000000000000int <= 504870979341447555463506281780983186990852118469774723052978515625int && 504870979341447555463506281780983186990852118469774723052978515625int < 0x9968bf6abbe85f207e998b13cf4e1eccint * 0x80000000000000000000000int);
    } else if q == 95 {
        assert(entry_value(95) == 0xbfc2ef456ae276e89e3fedd8c321a67eint);
        assert(table_exponent(95) == -93);
        assert(0xbfc2ef456ae276e89e3fedd8c321a67eint * 0x200000000000000000000000int <= 2524354896707237777317531408904915934954260592348873615264892578125int && 2524354896707237777317531408904915934954260592348873615264892578125int < 0xbfc2ef456ae276e89e3fedd8c321a67fint * 0x200000000000000000000000int);
    } else if q == 96 {
        assert(entry_value(96) == 0xefb3ab16c59b14a2c5cfe94ef3ea101eint);
        assert(table_exponent(96) == -95);
        assert(0xefb3ab16c59b14a2c5cfe94ef3ea101eint * 0x800000000000000000000000int <= 12621774483536188886587657044524579674771302961744368076324462890625int && 12621774483536188886587657044524579674771302961744368076324462890625int < 0xefb3ab16c59b14a2c5cfe94ef3ea101fint * 0x800000000000000000000000int);
    } else if q == 97 {
        assert(entry_value(97) == 0x95d04aee3b80ece5bba1f1d158724a12int);
        assert(table_exponent(97) == -98);
        assert(0x95d04aee3b80ece5bba1f1d158724a12int * 0x4000000000000000000000000int <= 63108872417680944432938285222622898373856514808721840381622314453125int && 63108872417680944432938285222622898373856514808721840381622314453125int < 0x95d04aee3b80ece5bba1f1d158724a13int * 0x4000000000000000000000000int);
    } else if q == 98 {
        assert(entry_value(98) == 0xbb445da9ca61281f2a8a6e45ae8edc97int);
        assert(table_exponent(98) == -100);
        assert(0xbb445da9ca61281f2a8a6e45ae8edc97int * 0x10000000000000000000000000int <= 315544362088404722164691426113114491869282574043609201908111572265625int && 315544362088404722164691426113114491869282574043609201908111572265625int < 0xbb445da9ca61281f2a8a6e45ae8edc98int * 0x10000000000000000000000000int);
    } else if q == 99 {
        assert(entry_value(99) == 0xea1575143cf97226f52d09d71a3293bdint);
        assert(table_exponent(99) == -102);
        assert(0xea1575143cf97226f52d09d71a3293bdint * 0x40000000000000000000000000int <= 1577721810442023610823457130565572459346412870218046009540557861328125int && 1577721810442023610823457130565572459346412870218046009540557861328125int < 0xea1575143cf97226f52d09d71a3293beint * 0x40000000000000000000000000int);
    } else if q == 100 {
        assert(entry_value(100) == 0x924d692ca61be758593c2626705f9c56int);
        assert(table_exponent(100) == -105);
        assert(0x924d692ca61be758593c2626705f9c56int * 0x200000000000000000000000000int <= 7888609052210118054117285652827862296732064351090230047702789306640625int && 7888609052210118054117285652827862296732064351090230047702789306640625int < 0x924d692ca61be758593c2626705f9c57int * 0x200000000000000000000000000int);
    } else if q == 101 {
        assert(entry_value(101) == 0xb6e0c377cfa2e12e6f8b2fb00c77836cint);
        assert(table_exponent(101) == -107);
        assert(0xb6e0c377cfa2e12e6f8b2fb00c77836cint * 0x800000000000000000000000000int <= 39443045261050590270586428264139311483660321755451150238513946533203125int && 39443045261050590270586428264139311483660321755451150238513946533203125int < 0xb6e0c377cfa2e12e6f8b2fb00c77836dint * 0x800000000000000000000000000int);
    } else if q == 102 {
        assert(entry_value(102) == 0xe498f455c38b997a0b6dfb9c0f956447int);
        assert(table_exponent(102) == -109);
        assert(0xe498f455c38b997a0b6dfb9c0f956447int * 0x2000000000000000000000000000int <= 197215226305252951352932141320696557418301608777255751192569732666015625int && 197215226305252951352932141320696557418301608777255751192569732666015625int < 0xe498f455c38b997a0b6dfb9c0f956448int * 0x2000000000000000000000000000int);
    } else if q == 103 {
        assert(entry_value(103) == 0x8edf98b59a373fec4724bd4189bd5eacint);
        assert(table_exponent(103) == -112);
        assert(0x8edf98b59a373fec4724bd4189bd5eacint * 0x10000000000000000000000000000int <= 986076131526264756764660706603482787091508043886278755962848663330078125int && 986076131526264756764660706603482787091508043886278755962848663330078125int < 0x8edf98b59a373fec4724bd4189bd5eadint * 0x10000000000000000000000000000int);
    } else if q == 104 {
        assert(entry_value(104) == 0xb2977ee300c50fe758edec91ec2cb657int);
        assert(table_exponent(104) == -114);
        assert(0xb2977ee300c50fe758edec91ec2cb657int * 0x40000000000000000000000000000int <= 4930380657631323783823303533017413935457540219431393779814243316650390625int && 4930380657631323783823303533017413935457540219431393779814243316650390625int < 0xb2977ee300c50fe758edec91ec2cb658int * 0x40000000000000000000000000000int);
    } else if q == 105 {
        assert(entry_value(105) == 0xdf3d5e9bc0f653e12f2967b66737e3edint);
        assert(table_exponent(105) == -116);
        assert(0xdf3d5e9bc0f653e12f2967b66737e3edint * 0x100000000000000000000000000000int <= 24651903288156618919116517665087069677287701097156968899071216583251953125int && 24651903288156618919116517665087069677287701097156968899071216583251953125int < 0xdf3d5e9bc0f653e12f2967b66737e3eeint * 0x100000000000000000000000000000int);
    } else if q == 106 {
        assert(entry_value(106) == 0x8b865b215899f46cbd79e0d20082ee74int);
        assert(table_exponent(106) == -119);
        assert(0x8b865b215899f46cbd79e0d20082ee74int * 0x800000000000000000000000000000int <= 123259516440783094595582588325435348386438505485784844495356082916259765625int && 123259516440783094595582588325435348386438505485784844495356082916259765625int < 0x8b865b215899f46cbd79e0d20082ee75int * 0x800000000000000000000000000000int);
    } else if q == 107 {
        assert(entry_value(107) == 0xae67f1e9aec07187ecd8590680a3aa11int);
        assert(table_exponent(107) == -121);
        assert(0xae67f1e9aec07187ecd8590680a3aa11int * 0x2000000000000000000000000000000int <= 616297582203915472977912941627176741932192527428924222476780414581298828125int && 616297582203915472977912941627176741932192527428924222476780414581298828125int < 0xae67f1e9aec07187ecd8590680a3aa12int * 0x2000000000000000000000000000000int);
    }
}

/// A part of the entries of the table, each held against its power of five.
proof fn lemma_entries_15(q: int)
    requires
        108 <= q <= 137,
    ensures
        approximates(q),
{
    lemma_pow5_values_2();
    lemma_pow5_values_3();
    lemma_pow2_values_3();
    lemma_pow2_values_4();
    if q == 108 {
        assert(entry_value(108) == 0xda01ee641a708de9e80e6f4820cc9495int);
        assert(table_exponent(108) == -123);
        assert(0xda01ee641a708de9e80e6f4820cc9495int * 0x8000000000000000000000000000000int <= 3081487911019577364889564708135883709660962637144621112383902072906494140625int && 3081487911019577364889564708135883709660962637144621112383902072906494140625int < 0xda01ee641a708de9e80e6f4820cc9496int * 0x8000000000000000000000000000000int);
    } else if q == 109 {
        assert(entry_value(109) == 0x884134fe908658b23109058d147fdcddint);
        assert(table_exponent(109) == -126);
        assert(0x884134fe908658b23109058d147fdcddint * 0x40000000000000000000000000000000int <= 15407439555097886824447823540679418548304813185723105561919510364532470703125int && 15407439555097886824447823540679418548304813185723105561919510364532470703125int < 0x884134fe908658b23109058d147fdcdeint * 0x40000000000000000000000000000000int);
    } else if q == 110 {
        assert(entry_value(110) == 0xaa51823e34a7eedebd4b46f0599fd415int);
        assert(table_exponent(110) == -128);
        assert(0xaa51823e34a7eedebd4b46f0599fd415int * 0x100000000000000000000000000000000int <= 77037197775489434122239117703397092741524065928615527809597551822662353515625int && 77037197775489434122239117703397092741524065928615527809597551822662353515625int < 0xaa51823e34a7eedebd4b46f0599fd416int * 0x100000000000000000000000000000000int);
    } else if q == 111 {
        assert(entry_value(111) == 0xd4e5e2cdc1d1ea966c9e18ac7007c91aint);
        assert(table_exponent(111) == -130);
        assert(0xd4e5e2cdc1d1ea966c9e18ac7007c91aint * 0x400000000000000000000000000000000int <= 385185988877447170611195588516985463707620329643077639047987759113311767578125int && 385185988877447170611195588516985463707620329643077639047987759113311767578125int < 0xd4e5e2cdc1d1ea966c9e18ac7007c91bint * 0x400000000000000000000000000000000int);
    } else if q == 112 {
        assert(entry_value(112) == 0x850fadc09923329e03e2cf6bc604ddb0int);
        assert(table_exponent(112) == -133);
        assert(0x850fadc09923329e03e2cf6bc604ddb0int * 0x2000000000000000000000000000000000int <= 1925929944387235853055977942584927318538101648215388195239938795566558837890625int && 1925929944387235853055977942584927318538101648215388195239938795566558837890625int < 0x850fadc09923329e03e2cf6bc604ddb1int * 0x2000000000000000000000000000000000int);
    } else if q == 113 {
        assert(entry_value(113) == 0xa6539930bf6bff4584db8346b786151cint);
        assert(table_exponent(113) == -135);
        assert(0xa6539930bf6bff4584db8346b786151cint * 0x8000000000000000000000000000000000int <= 9629649721936179265279889712924636592690508241076940976199693977832794189453125int && 9629649721936179265279889712924636592690508241076940976199693977832794189453125int < 0xa6539930bf6bff4584db8346b786151dint * 0x8000000000000000000000000000000000int);
    } else if q == 114 {
        assert(entry_value(114) == 0xcfe87f7cef46ff16e612641865679a63int);
        assert(table_exponent(114) == -137);
        assert(0xcfe87f7cef46ff16e612641865679a63int * 0x20000000000000000000000000000000000int <= 48148248609680896326399448564623182963452541205384704880998469889163970947265625int && 48148248609680896326399448564623182963452541205384704880998469889163970947265625int < 0xcfe87f7cef46ff16e612641865679a64int * 0x20000000000000000000000000000000000int);
    } else if q == 115 {
        assert(entry_value(115) == 0x81f14fae158c5f6e4fcb7e8f3f60c07eint);
        assert(table_exponent(115) == -140);
        assert(0x81f14fae158c5f6e4fcb7e8f3f60c07eint * 0x100000000000000000000000000000000000int <= 240741243048404481631997242823115914817262706026923524404992349445819854736328125int && 240741243048404481631997242823115914817262706026923524404992349445819854736328125int < 0x81f14fae158c5f6e4fcb7e8f3f60c07fint * 0x100000000000000000000000000000000000int);
    } else if q == 116 {
        assert(entry_value(116) == 0xa26da3999aef7749e3be5e330f38f09dint);
        assert(table_exponent(116) == -142);
        assert(0xa26da3999aef7749e3be5e330f38f09dint * 0x400000000000000000000000000000000000int <= 1203706215242022408159986214115579574086313530134617622024961747229099273681640625int && 1203706215242022408159986214115579574086313530134617622024961747229099273681640625int < 0xa26da3999aef7749e3be5e330f38f09eint * 0x400000000000000000000000000000000000int);
    } else if q == 117 {
        assert(entry_value(117) == 0xcb090c8001ab551c5cadf5bfd3072cc5int);
        assert(table_exponent(117) == -144);
        assert(0xcb090c8001ab551c5cadf5bfd3072cc5int * 0x1000000000000000000000000000000000000int <= 6018531076210112040799931070577897870431567650673088110124808736145496368408203125int && 6018531076210112040799931070577897870431567650673088110124808736145496368408203125int < 0xcb090c8001ab551c5cadf5bfd3072cc6int * 0x1000000000000000000000000000000000000int);
    } else if q == 118 {
        assert(entry_value(118) == 0xfdcb4fa002162a6373d9732fc7c8f7f6int);
        assert(table_exponent(118) == -146);
        assert(0xfdcb4fa002162a6373d9732fc7c8f7f6int * 0x4000000000000000000000000000000000000int <= 30092655381050560203999655352889489352157838253365440550624043680727481842041015625int && 30092655381050560203999655352889489352157838253365440550624043680727481842041015625int < 0xfdcb4fa002162a6373d9732fc7c8f7f7int * 0x4000000000000000000000000000000000000int);
    } else if q == 119 {
        assert(entry_value(119) == 0x9e9f11c4014dda7e2867e7fddcdd9afaint);
        assert(table_exponent(119) == -149);
        assert(0x9e9f11c4014dda7e2867e7fddcdd9afaint * 0x20000000000000000000000000000000000000int <= 150463276905252801019998276764447446760789191266827202753120218403637409210205078125int && 150463276905252801019998276764447446760789191266827202753120218403637409210205078125int < 0x9e9f11c4014dda7e2867e7fddcdd9afbint * 0x20000000000000000000000000000000000000int);
    } else if q == 120 {
        assert(entry_value(120) == 0xc646d63501a1511db281e1fd541501b8int);
        assert(table_exponent(120) == -151);
        assert(0xc646d63501a1511db281e1fd541501b8int * 0x80000000000000000000000000000000000000int <= 752316384526264005099991383822237233803945956334136013765601092018187046051025390625int && 752316384526264005099991383822237233803945956334136013765601092018187046051025390625int < 0xc646d63501a1511db281e1fd541501b9int * 0x80000000000000000000000000000000000000int);
    } else if q == 121 {
        assert(entry_value(121) == 0xf7d88bc24209a5651f225a7ca91a4226int);
        assert(table_exponent(121) == -153);
        assert(0xf7d88bc24209a5651f225a7ca91a4226int * 0x200000000000000000000000000000000000000int <= 3761581922631320025499956919111186169019729781670680068828005460090935230255126953125int && 3761581922631320025499956919111186169019729781670680068828005460090935230255126953125int < 0xf7d88bc24209a5651f225a7ca91a4227int * 0x200000000000000000000000000000000000000int);
    } else if q == 122 {
        assert(entry_value(122) == 0x9ae757596946075f3375788de9b06958int);
        assert(table_exponent(122) == -156);
        assert(0x9ae757596946075f3375788de9b06958int * 0x1000000000000000000000000000000000000000int <= 18807909613156600127499784595555930845098648908353400344140027300454676151275634765625int && 18807909613156600127499784595555930845098648908353400344140027300454676151275634765625int < 0x9ae757596946075f3375788de9b06959int * 0x1000000000000000000000000000000000000000int);
    } else if q == 123 {
        assert(entry_value(123) == 0xc1a12d2fc39789370052d6b1641c83aeint);
        assert(table_exponent(123) == -158);
        assert(0xc1a12d2fc39789370052d6b1641c83aeint * 0x4000000000000000000000000000000000000000int <= 94039548065783000637498922977779654225493244541767001720700136502273380756378173828125int && 94039548065783000637498922977779654225493244541767001720700136502273380756378173828125int < 0xc1a12d2fc39789370052d6b1641c83afint * 0x4000000000000000000000000000000000000000int);
    } else if q == 124 {
        assert(entry_value(124) == 0xf209787bb47d6b84c0678c5dbd23a49aint);
        assert(table_exponent(124) == -160);
        assert(0xf209787bb47d6b84c0678c5dbd23a49aint * 0x10000000000000000000000000000000000000000int <= 470197740328915003187494614888898271127466222708835008603500682511366903781890869140625int && 470197740328915003187494614888898271127466222708835008603500682511366903781890869140625int < 0xf209787bb47d6b84c0678c5dbd23a49bint * 0x10000000000000000000000000000000000000000int);
    } else if q == 125 {
        assert(entry_value(125) == 0x9745eb4d50ce6332f840b7ba963646e0int);
        assert(table_exponent(125) == -163);
        assert(0x9745eb4d50ce6332f840b7ba963646e0int * 0x80000000000000000000000000000000000000000int <= 2350988701644575015937473074444491355637331113544175043017503412556834518909454345703125int && 2350988701644575015937473074444491355637331113544175043017503412556834518909454345703125int < 0x9745eb4d50ce6332f840b7ba963646e1int * 0x80000000000000000000000000000000000000000int);
    } else if q == 126 {
        assert(entry_value(126) == 0xbd176620a501fbffb650e5a93bc3d898int);
        assert(table_exponent(126) == -165);
        assert(0xbd176620a501fbffb650e5a93bc3d898int * 0x200000000000000000000000000000000000000000int <= 11754943508222875079687365372222456778186655567720875215087517062784172594547271728515625int && 11754943508222875079687365372222456778186655567720875215087517062784172594547271728515625int < 0xbd176620a501fbffb650e5a93bc3d899int * 0x200000000000000000000000000000000000000000int);
    } else if q == 127 {
        assert(entry_value(127) == 0xec5d3fa8ce427affa3e51f138ab4cebeint);
        assert(table_exponent(127) == -167);
        assert(0xec5d3fa8ce427affa3e51f138ab4cebeint * 0x800000000000000000000000000000000000000000int <= 58774717541114375398436826861112283890933277838604376075437585313920862972736358642578125int && 58774717541114375398436826861112283890933277838604376075437585313920862972736358642578125int < 0xec5d3fa8ce427affa3e51f138ab4cebfint * 0x800000000000000000000000000000000000000000int);
    } else if q == 128 {
        assert(entry_value(128) == 0x93ba47c980e98cdfc66f336c36b10137int);
        assert(table_exponent(128) == -170);
        assert(0x93ba47c980e98cdfc66f336c36b10137int * 0x4000000000000000000000000000000000000000000int <= 293873587705571876992184134305561419454666389193021880377187926569604314863681793212890625int && 293873587705571876992184134305561419454666389193021880377187926569604314863681793212890625int < 0x93ba47c980e98cdfc66f336c36b10138int * 0x4000000000000000000000000000000000000000000int);
    } else if q == 129 {
        assert(entry_value(129) == 0xb8a8d9bbe123f017b80b0047445d4184int);
        assert(table_exponent(129) == -172);
        assert(0xb8a8d9bbe123f017b80b0047445d4184int * 0x10000000000000000000000000000000000000000000int <= 1469367938527859384960920671527807097273331945965109401885939632848021574318408966064453125int && 1469367938527859384960920671527807097273331945965109401885939632848021574318408966064453125int < 0xb8a8d9bbe123f017b80b0047445d4185int * 0x10000000000000000000000000000000000000000000int);
    } else if q == 130 {
        assert(entry_value(130) == 0xe6d3102ad96cec1da60dc059157491e5int);
        assert(table_exponent(130) == -174);
        assert(0xe6d3102ad96cec1da60dc059157491e5int * 0x40000000000000000000000000000000000000000000int <= 7346839692639296924804603357639035486366659729825547009429698164240107871592044830322265625int && 7346839692639296924804603357639035486366659729825547009429698164240107871592044830322265625int < 0xe6d3102ad96cec1da60dc059157491e6int * 0x40000000000000000000000000000000000000000000int);
    } else if q == 131 {
        assert(entry_value(131) == 0x9043ea1ac7e4139287c89837ad68db2fint);
        assert(table_exponent(131) == -177);
        assert(0x9043ea1ac7e4139287c89837ad68db2fint * 0x200000000000000000000000000000000000000000000int <= 36734198463196484624023016788195177431833298649127735047148490821200539357960224151611328125int && 36734198463196484624023016788195177431833298649127735047148490821200539357960224151611328125int < 0x9043ea1ac7e4139287c89837ad68db30int * 0x200000000000000000000000000000000000000000000int);
    } else if q == 132 {
        assert(entry_value(132) == 0xb454e4a179dd187729babe4598c311fbint);
        assert(table_exponent(132) == -179);
        assert(0xb454e4a179dd187729babe4598c311fbint * 0x800000000000000000000000000000000000000000000int <= 183670992315982423120115083940975887159166493245638675235742454106002696789801120758056640625int && 183670992315982423120115083940975887159166493245638675235742454106002696789801120758056640625int < 0xb454e4a179dd187729babe4598c311fcint * 0x800000000000000000000000000000000000000000000int);
    } else if q == 133 {
        assert(entry_value(133) == 0xe16a1dc9d8545e94f4296dd6fef3d67aint);
        assert(table_exponent(133) == -181);
        assert(0xe16a1dc9d8545e94f4296dd6fef3d67aint * 0x2000000000000000000000000000000000000000000000int <= 918354961579912115600575419704879435795832466228193376178712270530013483949005603790283203125int && 918354961579912115600575419704879435795832466228193376178712270530013483949005603790283203125int < 0xe16a1dc9d8545e94f4296dd6fef3d67bint * 0x2000000000000000000000000000000000000000000000int);
    } else if q == 134 {
        assert(entry_value(134) == 0x8ce2529e2734bb1d1899e4a65f58660cint);
        assert(table_exponent(134) == -184);
        assert(0x8ce2529e2734bb1d1899e4a65f58660cint * 0x10000000000000000000000000000000000000000000000int <= 4591774807899560578002877098524397178979162331140966880893561352650067419745028018951416015625int && 4591774807899560578002877098524397178979162331140966880893561352650067419745028018951416015625int < 0x8ce2529e2734bb1d1899e4a65f58660dint * 0x10000000000000000000000000000000000000000000000int);
    } else if q == 135 {
        assert(entry_value(135) == 0xb01ae745b101e9e45ec05dcff72e7f8fint);
        assert(table_exponent(135) == -186);
        assert(0xb01ae745b101e9e45ec05dcff72e7f8fint * 0x40000000000000000000000000000000000000000000000int <= 22958874039497802890014385492621985894895811655704834404467806763250337098725140094757080078125int && 22958874039497802890014385492621985894895811655704834404467806763250337098725140094757080078125int < 0xb01ae745b101e9e45ec05dcff72e7f90int * 0x40000000000000000000000000000000000000000000000int);
    } else if q == 136 {
        assert(entry_value(136) == 0xdc21a1171d42645d76707543f4fa1f73int);
        assert(table_exponent(136) == -188);
        assert(0xdc21a1171d42645d76707543f4fa1f73int * 0x100000000000000000000000000000000000000000000000int <= 114794370197489014450071927463109929474479058278524172022339033816251685493625700473785400390625int && 114794370197489014450071927463109929474479058278524172022339033816251685493625700473785400390625int < 0xdc21a1171d42645d76707543f4fa1f74int * 0x100000000000000000000000000000000000000000000000int);
    } else if q == 137 {
        assert(entry_value(137) == 0x899504ae72497eba6a06494a791c53a8int);
        assert(table_exponent(137) == -191);
        assert(0x899504ae72497eba6a06494a791c53a8int * 0x800000000000000000000000000000000000000000000000int <= 573971850987445072250359637315549647372395291392620860111695169081258427468128502368927001953125int && 573971850987445072250359637315549647372395291392620860111695169081258427468128502368927001953125int < 0x899504ae72497eba6a06494a791c53a9int * 0x800000000000000000000000000000000000000000000000int);
    }
}

/// A part of the entries of the table, each held against its power of five.
proof fn lemma_entries_16(q: int)
    requires
        138 <= q <= 167,
    ensures
        approximates(q),
{
    lemma_pow5_values_3();
    lemma_pow5_values_4();
    lemma_pow2_values_3();
    lemma_pow2_values_4();
    lemma_pow2_values_5();
    lemma_pow2_values_6();
    if q == 138 {
        assert(entry_value(138) == 0xabfa45da0edbde690487db9d17636892int);
        assert(table_exponent(138) == -193);
        assert(0xabfa45da0edbde690487db9d17636892int * 0x2000000000000000000000000000000000000000000000000int <= 2869859254937225361251798186577748236861976456963104300558475845406292137340642511844635009765625int && 2869859254937225361251798186577748236861976456963104300558475845406292137340642511844635009765625int < 0xabfa45da0edbde690487db9d17636893int * 0x2000000000000000000000000000000000000000000000000int);
    } else if q == 139 {
        assert(entry_value(139) == 0xd6f8d7509292d60345a9d2845d3c42b6int);
        assert(table_exponent(139) == -195);
        assert(0xd6f8d7509292d60345a9d2845d3c42b6int * 0x8000000000000000000000000000000000000000000000000int <= 14349296274686126806258990932888741184309882284815521502792379227031460686703212559223175048828125int && 14349296274686126806258990932888741184309882284815521502792379227031460686703212559223175048828125int < 0xd6f8d7509292d60345a9d2845d3c42b7int * 0x8000000000000000000000000000000000000000000000000int);
    } else if q == 140 {
        assert(entry_value(140) == 0x865b86925b9bc5c20b8a2392ba45a9b2int);
        assert(table_exponent(140) == -198);
        assert(0x865b86925b9bc5c20b8a2392ba45a9b2int * 0x40000000000000000000000000000000000000000000000000int <= 71746481373430634031294954664443705921549411424077607513961896135157303433516062796115875244140625int && 71746481373430634031294954664443705921549411424077607513961896135157303433516062796115875244140625int < 0x865b86925b9bc5c20b8a2392ba45a9b3int * 0x40000000000000000000000000000000000000000000000000int);
    } else if q == 141 {
        assert(entry_value(141) == 0xa7f26836f282b7328e6cac7768d7141eint);
        assert(table_exponent(141) == -200);
        assert(0xa7f26836f282b7328e6cac7768d7141eint * 0x100000000000000000000000000000000000000000000000000int <= 358732406867153170156474773322218529607747057120388037569809480675786517167580313980579376220703125int && 358732406867153170156474773322218529607747057120388037569809480675786517167580313980579376220703125int < 0xa7f26836f282b7328e6cac7768d7141fint * 0x100000000000000000000000000000000000000000000000000int);
    } else if q == 142 {
        assert(entry_value(142) == 0xd1ef0244af2364ff3207d795430cd926int);
        assert(table_exponent(142) == -202);
        assert(0xd1ef0244af2364ff3207d795430cd926int * 0x400000000000000000000000000000000000000000000000000int <= 1793662034335765850782373866611092648038735285601940187849047403378932585837901569902896881103515625int && 1793662034335765850782373866611092648038735285601940187849047403378932585837901569902896881103515625int < 0xd1ef0244af2364ff3207d795430cd927int * 0x400000000000000000000000000000000000000000000000000int);
    } else if q == 143 {
        assert(entry_value(143) == 0x8335616aed761f1f7f44e6bd49e807b8int);
        assert(table_exponent(143) == -205);
        assert(0x8335616aed761f1f7f44e6bd49e807b8int * 0x2000000000000000000000000000000000000000000000000000int <= 8968310171678829253911869333055463240193676428009700939245237016894662929189507849514484405517578125int && 8968310171678829253911869333055463240193676428009700939245237016894662929189507849514484405517578125int < 0x8335616aed761f1f7f44e6bd49e807b9int * 0x2000000000000000000000000000000000000000000000000000int);
    } else if q == 144 {
        assert(entry_value(144) == 0xa402b9c5a8d3a6e75f16206c9c6209a6int);
        assert(table_exponent(144) == -207);
        assert(0xa402b9c5a8d3a6e75f16206c9c6209a6int * 0x8000000000000000000000000000000000000000000000000000int <= 44841550858394146269559346665277316200968382140048504696226185084473314645947539247572422027587890625int && 44841550858394146269559346665277316200968382140048504696226185084473314645947539247572422027587890625int < 0xa402b9c5a8d3a6e75f16206c9c6209a7int * 0x8000000000000000000000000000000000000000000000000000int);
    } else if q == 145 {
        assert(entry_value(145) == 0xcd036837130890a136dba887c37a8c0fint);
        assert(table_exponent(145) == -209);
        assert(0xcd036837130890a136dba887c37a8c0fint * 0x20000000000000000000000000000000000000000000000000000int <= 224207754291970731347796733326386581004841910700242523481130925422366573229737696237862110137939453125int && 224207754291970731347796733326386581004841910700242523481130925422366573229737696237862110137939453125int < 0xcd036837130890a136dba887c37a8c10int * 0x20000000000000000000000000000000000000000000000000000int);
    } else if q == 146 {
        assert(entry_value(146) == 0x802221226be55a64c2494954da2c9789int);
        assert(table_exponent(146) == -212);
        assert(0x802221226be55a64c2494954da2c9789int * 0x100000000000000000000000000000000000000000000000000000int <= 1121038771459853656738983666631932905024209553501212617405654627111832866148688481189310550689697265625int && 1121038771459853656738983666631932905024209553501212617405654627111832866148688481189310550689697265625int < 0x802221226be55a64c2494954da2c978aint * 0x100000000000000000000000000000000000000000000000000000int);
    } else if q == 147 {
        assert(entry_value(147) == 0xa02aa96b06deb0fdf2db9baa10b7bd6cint);
        assert(table_exponent(147) == -214);
        assert(0xa02aa96b06deb0fdf2db9baa10b7bd6cint * 0x400000000000000000000000000000000000000000000000000000int <= 5605193857299268283694918333159664525121047767506063087028273135559164330743442405946552753448486328125int && 5605193857299268283694918333159664525121047767506063087028273135559164330743442405946552753448486328125int < 0xa02aa96b06deb0fdf2db9baa10b7bd6dint * 0x400000000000000000000000000000000000000000000000000000int);
    } else if q == 148 {
        assert(entry_value(148) == 0xc83553c5c8965d3d6f92829494e5acc7int);
        assert(table_exponent(148) == -216);
        assert(0xc83553c5c8965d3d6f92829494e5acc7int * 0x1000000000000000000000000000000000000000000000000000000int <= 28025969286496341418474591665798322625605238837530315435141365677795821653717212029732763767242431640625int && 28025969286496341418474591665798322625605238837530315435141365677795821653717212029732763767242431640625int < 0xc83553c5c8965d3d6f92829494e5acc8int * 0x1000000000000000000000000000000000000000000000000000000int);
    } else if q == 149 {
        assert(entry_value(149) == 0xfa42a8b73abbf48ccb772339ba1f17f9int);
        assert(table_exponent(149) == -218);
        assert(0xfa42a8b73abbf48ccb772339ba1f17f9int * 0x4000000000000000000000000000000000000000000000000000000int <= 140129846432481707092372958328991613128026194187651577175706828388979108268586060148663818836212158203125int && 140129846432481707092372958328991613128026194187651577175706828388979108268586060148663818836212158203125int < 0xfa42a8b73abbf48ccb772339ba1f17faint * 0x4000000000000000000000000000000000000000000000000000000int);
    } else if q == 150 {
        assert(entry_value(150) == 0x9c69a97284b578d7ff2a760414536efbint);
        assert(table_exponent(150) == -221);
        assert(0x9c69a97284b578d7ff2a760414536efbint * 0x20000000000000000000000000000000000000000000000000000000int <= 700649232162408535461864791644958065640130970938257885878534141944895541342930300743319094181060791015625int && 700649232162408535461864791644958065640130970938257885878534141944895541342930300743319094181060791015625int < 0x9c69a97284b578d7ff2a760414536efcint * 0x20000000000000000000000000000000000000000000000000000000int);
    } else if q == 151 {
        assert(entry_value(151) == 0xc38413cf25e2d70dfef5138519684abaint);
        assert(table_exponent(151) == -223);
        assert(0xc38413cf25e2d70dfef5138519684abaint * 0x80000000000000000000000000000000000000000000000000000000int <= 3503246160812042677309323958224790328200654854691289429392670709724477706714651503716595470905303955078125int && 3503246160812042677309323958224790328200654854691289429392670709724477706714651503716595470905303955078125int < 0xc38413cf25e2d70dfef5138519684abbint * 0x80000000000000000000000000000000000000000000000000000000int);
    } else if q == 152 {
        assert(entry_value(152) == 0xf46518c2ef5b8cd17eb258665fc25d69int);
        assert(table_exponent(152) == -225);
        assert(0xf46518c2ef5b8cd17eb258665fc25d69int * 0x200000000000000000000000000000000000000000000000000000000int <= 17516230804060213386546619791123951641003274273456447146963353548622388533573257518582977354526519775390625int && 17516230804060213386546619791123951641003274273456447146963353548622388533573257518582977354526519775390625int < 0xf46518c2ef5b8cd17eb258665fc25d6aint * 0x200000000000000000000000000000000000000000000000000000000int);
    } else if q == 153 {
        assert(entry_value(153) == 0x98bf2f79d5993802ef2f773ffbd97a61int);
        assert(table_exponent(153) == -228);
        assert(0x98bf2f79d5993802ef2f773ffbd97a61int * 0x1000000000000000000000000000000000000000000000000000000000int <= 87581154020301066932733098955619758205016371367282235734816767743111942667866287592914886772632598876953125int && 87581154020301066932733098955619758205016371367282235734816767743111942667866287592914886772632598876953125int < 0x98bf2f79d5993802ef2f773ffbd97a62int * 0x1000000000000000000000000000000000000000000000000000000000int);
    } else if q == 154 {
        assert(entry_value(154) == 0xbeeefb584aff8603aafb550ffacfd8faint);
        assert(table_exponent(154) == -230);
        assert(0xbeeefb584aff8603aafb550ffacfd8faint * 0x4000000000000000000000000000000000000000000000000000000000int <= 437905770101505334663665494778098791025081856836411178674083838715559713339331437964574433863162994384765625int && 437905770101505334663665494778098791025081856836411178674083838715559713339331437964574433863162994384765625int < 0xbeeefb584aff8603aafb550ffacfd8fbint * 0x4000000000000000000000000000000000000000000000000000000000int);
    } else if q == 155 {
        assert(entry_value(155) == 0xeeaaba2e5dbf678495ba2a53f983cf38int);
        assert(table_exponent(155) == -232);
        assert(0xeeaaba2e5dbf678495ba2a53f983cf38int * 0x10000000000000000000000000000000000000000000000000000000000int <= 2189528850507526673318327473890493955125409284182055893370419193577798566696657189822872169315814971923828125int && 2189528850507526673318327473890493955125409284182055893370419193577798566696657189822872169315814971923828125int < 0xeeaaba2e5dbf678495ba2a53f983cf39int * 0x10000000000000000000000000000000000000000000000000000000000int);
    } else if q == 156 {
        assert(entry_value(156) == 0x952ab45cfa97a0b2dd945a747bf26183int);
        assert(table_exponent(156) == -235);
        assert(0x952ab45cfa97a0b2dd945a747bf26183int * 0x80000000000000000000000000000000000000000000000000000000000int <= 10947644252537633366591637369452469775627046420910279466852095967888992833483285949114360846579074859619140625int && 10947644252537633366591637369452469775627046420910279466852095967888992833483285949114360846579074859619140625int < 0x952ab45cfa97a0b2dd945a747bf26184int * 0x80000000000000000000000000000000000000000000000000000000000int);
    } else if q == 157 {
        assert(entry_value(157) == 0xba756174393d88df94f971119aeef9e4int);
        assert(table_exponent(157) == -237);
        assert(0xba756174393d88df94f971119aeef9e4int * 0x200000000000000000000000000000000000000000000000000000000000int <= 54738221262688166832958186847262348878135232104551397334260479839444964167416429745571804232895374298095703125int && 54738221262688166832958186847262348878135232104551397334260479839444964167416429745571804232895374298095703125int < 0xba756174393d88df94f971119aeef9e5int * 0x200000000000000000000000000000000000000000000000000000000000int);
    } else if q == 158 {
        assert(entry_value(158) == 0xe912b9d1478ceb177a37cd5601aab85dint);
        assert(table_exponent(158) == -239);
        assert(0xe912b9d1478ceb177a37cd5601aab85dint * 0x800000000000000000000000000000000000000000000000000000000000int <= 273691106313440834164790934236311744390676160522756986671302399197224820837082148727859021164476871490478515625int && 273691106313440834164790934236311744390676160522756986671302399197224820837082148727859021164476871490478515625int < 0xe912b9d1478ceb177a37cd5601aab85eint * 0x800000000000000000000000000000000000000000000000000000000000int);
    } else if q == 159 {
        assert(entry_value(159) == 0x91abb422ccb812eeac62e055c10ab33aint);
        assert(table_exponent(159) == -242);
        assert(0x91abb422ccb812eeac62e055c10ab33aint * 0x4000000000000000000000000000000000000000000000000000000000000int <= 1368455531567204170823954671181558721953380802613784933356511995986124104185410743639295105822384357452392578125int && 1368455531567204170823954671181558721953380802613784933356511995986124104185410743639295105822384357452392578125int < 0x91abb422ccb812eeac62e055c10ab33bint * 0x4000000000000000000000000000000000000000000000000000000000000int);
    } else if q == 160 {
        assert(entry_value(160) == 0xb616a12b7fe617aa577b986b314d6009int);
        assert(table_exponent(160) == -244);
        assert(0xb616a12b7fe617aa577b986b314d6009int * 0x10000000000000000000000000000000000000000000000000000000000000int <= 6842277657836020854119773355907793609766904013068924666782559979930620520927053718196475529111921787261962890625int && 6842277657836020854119773355907793609766904013068924666782559979930620520927053718196475529111921787261962890625int < 0xb616a12b7fe617aa577b986b314d600aint * 0x10000000000000000000000000000000000000000000000000000000000000int);
    } else if q == 161 {
        assert(entry_value(161) == 0xe39c49765fdf9d94ed5a7e85fda0b80bint);
        assert(table_exponent(161) == -246);
        assert(0xe39c49765fdf9d94ed5a7e85fda0b80bint * 0x40000000000000000000000000000000000000000000000000000000000000int <= 34211388289180104270598866779538968048834520065344623333912799899653102604635268590982377645559608936309814453125int && 34211388289180104270598866779538968048834520065344623333912799899653102604635268590982377645559608936309814453125int < 0xe39c49765fdf9d94ed5a7e85fda0b80cint * 0x40000000000000000000000000000000000000000000000000000000000000int);
    } else if q == 162 {
        assert(entry_value(162) == 0x8e41ade9fbebc27d14588f13be847307int);
        assert(table_exponent(162) == -249);
        assert(0x8e41ade9fbebc27d14588f13be847307int * 0x200000000000000000000000000000000000000000000000000000000000000int <= 171056941445900521352994333897694840244172600326723116669563999498265513023176342954911888227798044681549072265625int && 171056941445900521352994333897694840244172600326723116669563999498265513023176342954911888227798044681549072265625int < 0x8e41ade9fbebc27d14588f13be847308int * 0x200000000000000000000000000000000000000000000000000000000000000int);
    } else if q == 163 {
        assert(entry_value(163) == 0xb1d219647ae6b31c596eb2d8ae258fc8int);
        assert(table_exponent(163) == -251);
        assert(0xb1d219647ae6b31c596eb2d8ae258fc8int * 0x800000000000000000000000000000000000000000000000000000000000000int <= 855284707229502606764971669488474201220863001633615583347819997491327565115881714774559441138990223407745361328125int && 855284707229502606764971669488474201220863001633615583347819997491327565115881714774559441138990223407745361328125int < 0xb1d219647ae6b31c596eb2d8ae258fc9int * 0x800000000000000000000000000000000000000000000000000000000000000int);
    } else if q == 164 {
        assert(entry_value(164) == 0xde469fbd99a05fe36fca5f8ed9aef3bbint);
        assert(table_exponent(164) == -253);
        assert(0xde469fbd99a05fe36fca5f8ed9aef3bbint * 0x2000000000000000000000000000000000000000000000000000000000000000int <= 4276423536147513033824858347442371006104315008168077916739099987456637825579408573872797205694951117038726806640625int && 4276423536147513033824858347442371006104315008168077916739099987456637825579408573872797205694951117038726806640625int < 0xde469fbd99a05fe36fca5f8ed9aef3bcint * 0x2000000000000000000000000000000000000000000000000000000000000000int);
    } else if q == 165 {
        assert(entry_value(165) == 0x8aec23d680043bee25de7bb9480d5854int);
        assert(table_exponent(165) == -256);
        assert(0x8aec23d680043bee25de7bb9480d5854int * 0x10000000000000000000000000000000000000000000000000000000000000000int <= 21382117680737565169124291737211855030521575040840389583695499937283189127897042869363986028474755585193634033203125int && 21382117680737565169124291737211855030521575040840389583695499937283189127897042869363986028474755585193634033203125int < 0x8aec23d680043bee25de7bb9480d5855int * 0x10000000000000000000000000000000000000000000000000000000000000000int);
    } else if q == 166 {
        assert(entry_value(166) == 0xada72ccc20054ae9af561aa79a10ae6aint);
        assert(table_exponent(166) == -258);
        assert(0xada72ccc20054ae9af561aa79a10ae6aint * 0x40000000000000000000000000000000000000000000000000000000000000000int <= 106910588403687825845621458686059275152607875204201947918477499686415945639485214346819930142373777925968170166015625int && 106910588403687825845621458686059275152607875204201947918477499686415945639485214346819930142373777925968170166015625int < 0xada72ccc20054ae9af561aa79a10ae6bint * 0x40000000000000000000000000000000000000000000000000000000000000000int);
    } else if q == 167 {
        assert(entry_value(167) == 0xd910f7ff28069da41b2ba1518094da04int);
        assert(table_exponent(167) == -260);
        assert(0xd910f7ff28069da41b2ba1518094da04int * 0x100000000000000000000000000000000000000000000000000000000000000000int <= 534552942018439129228107293430296375763039376021009739592387498432079728197426071734099650711868889629840850830078125int && 534552942018439129228107293430296375763039376021009739592387498432079728197426071734099650711868889629840850830078125int < 0xd910f7ff28069da41b2ba1518094da05int * 0x100000000000000000000000000000000000000000000000000000000000000000int);
    }
}

/// A part of the entries of the table, each held against its power of five.
proof fn lemma_entries_17(q: int)
    requires
        168 <= q <= 197,
    ensures
        approximates(q),
{
    lemma_pow5_values_4();
    lemma_pow2_values_3();
    lemma_pow2_values_6();
    lemma_pow2_values_7();
    lemma_pow2_values_8();
    if q == 168 {
        assert(entry_value(168) == 0x87aa9aff7904228690fb44d2f05d0842int);
        assert(table_exponent(168) == -263);
        assert(0x87aa9aff7904228690fb44d2f05d0842int * 0x800000000000000000000000000000000000000000000000000000000000000000int <= 2672764710092195646140536467151481878815196880105048697961937492160398640987130358670498253559344448149204254150390625int && 2672764710092195646140536467151481878815196880105048697961937492160398640987130358670498253559344448149204254150390625int < 0x87aa9aff7904228690fb44d2f05d0843int * 0x800000000000000000000000000000000000000000000000000000000000000000int);
    } else if q == 169 {
        assert(entry_value(169) == 0xa99541bf57452b28353a1607ac744a53int);
        assert(table_exponent(169) == -265);
        assert(0xa99541bf57452b28353a1607ac744a53int * 0x2000000000000000000000000000000000000000000000000000000000000000000int <= 13363823550460978230702682335757409394075984400525243489809687460801993204935651793352491267796722240746021270751953125int && 13363823550460978230702682335757409394075984400525243489809687460801993204935651793352491267796722240746021270751953125int < 0xa99541bf57452b28353a1607ac744a54int * 0x2000000000000000000000000000000000000000000000000000000000000000000int);
    } else if q == 170 {
        assert(entry_value(170) == 0xd3fa922f2d1675f242889b8997915ce8int);
        assert(table_exponent(170) == -267);
        assert(0xd3fa922f2d1675f242889b8997915ce8int * 0x8000000000000000000000000000000000000000000000000000000000000000000int <= 66819117752304891153513411678787046970379922002626217449048437304009966024678258966762456338983611203730106353759765625int && 66819117752304891153513411678787046970379922002626217449048437304009966024678258966762456338983611203730106353759765625int < 0xd3fa922f2d1675f242889b8997915ce9int * 0x8000000000000000000000000000000000000000000000000000000000000000000int);
    } else if q == 171 {
        assert(entry_value(171) == 0x847c9b5d7c2e09b769956135febada11int);
        assert(table_exponent(171) == -270);
        assert(0x847c9b5d7c2e09b769956135febada11int * 0x40000000000000000000000000000000000000000000000000000000000000000000int <= 334095588761524455767567058393935234851899610013131087245242186520049830123391294833812281694918056018650531768798828125int && 334095588761524455767567058393935234851899610013131087245242186520049830123391294833812281694918056018650531768798828125int < 0x847c9b5d7c2e09b769956135febada12int * 0x40000000000000000000000000000000000000000000000000000000000000000000int);
    } else if q == 172 {
        assert(entry_value(172) == 0xa59bc234db398c2543fab9837e699095int);
        assert(table_exponent(172) == -272);
        assert(0xa59bc234db398c2543fab9837e699095int * 0x100000000000000000000000000000000000000000000000000000000000000000000int <= 1670477943807622278837835291969676174259498050065655436226210932600249150616956474169061408474590280093252658843994140625int && 1670477943807622278837835291969676174259498050065655436226210932600249150616956474169061408474590280093252658843994140625int < 0xa59bc234db398c2543fab9837e699096int * 0x100000000000000000000000000000000000000000000000000000000000000000000int);
    } else if q == 173 {
        assert(entry_value(173) == 0xcf02b2c21207ef2e94f967e45e03f4bbint);
        assert(table_exponent(173) == -274);
        assert(0xcf02b2c21207ef2e94f967e45e03f4bbint * 0x400000000000000000000000000000000000000000000000000000000000000000000int <= 8352389719038111394189176459848380871297490250328277181131054663001245753084782370845307042372951400466263294219970703125int && 8352389719038111394189176459848380871297490250328277181131054663001245753084782370845307042372951400466263294219970703125int < 0xcf02b2c21207ef2e94f967e45e03f4bcint * 0x400000000000000000000000000000000000000000000000000000000000000000000int);
    } else if q == 174 {
        assert(entry_value(174) == 0x8161afb94b44f57d1d1be0eebac278f5int);
        assert(table_exponent(174) == -277);
        assert(0x8161afb94b44f57d1d1be0eebac278f5int * 0x2000000000000000000000000000000000000000000000000000000000000000000000int <= 41761948595190556970945882299241904356487451251641385905655273315006228765423911854226535211864757002331316471099853515625int && 41761948595190556970945882299241904356487451251641385905655273315006228765423911854226535211864757002331316471099853515625int < 0x8161afb94b44f57d1d1be0eebac278f6int * 0x2000000000000000000000000000000000000000000000000000000000000000000000int);
    } else if q == 175 {
        assert(entry_value(175) == 0xa1ba1ba79e1632dc6462d92a69731732int);
        assert(table_exponent(175) == -279);
        assert(0xa1ba1ba79e1632dc6462d92a69731732int * 0x8000000000000000000000000000000000000000000000000000000000000000000000int <= 208809742975952784854729411496209521782437256258206929528276366575031143827119559271132676059323785011656582355499267578125int && 208809742975952784854729411496209521782437256258206929528276366575031143827119559271132676059323785011656582355499267578125int < 0xa1ba1ba79e1632dc6462d92a69731733int * 0x8000000000000000000000000000000000000000000000000000000000000000000000int);
    } else if q == 176 {
        assert(entry_value(176) == 0xca28a291859bbf937d7b8f7503cfdcfeint);
        assert(table_exponent(176) == -281);
        assert(0xca28a291859bbf937d7b8f7503cfdcfeint * 0x20000000000000000000000000000000000000000000000000000000000000000000000int <= 1044048714879763924273647057481047608912186281291034647641381832875155719135597796355663380296618925058282911777496337890625int && 1044048714879763924273647057481047608912186281291034647641381832875155719135597796355663380296618925058282911777496337890625int < 0xca28a291859bbf937d7b8f7503cfdcffint * 0x20000000000000000000000000000000000000000000000000000000000000000000000int);
    } else if q == 177 {
        assert(entry_value(177) == 0xfcb2cb35e702af785cda735244c3d43eint);
        assert(table_exponent(177) == -283);
        assert(0xfcb2cb35e702af785cda735244c3d43eint * 0x80000000000000000000000000000000000000000000000000000000000000000000000int <= 5220243574398819621368235287405238044560931406455173238206909164375778595677988981778316901483094625291414558887481689453125int && 5220243574398819621368235287405238044560931406455173238206909164375778595677988981778316901483094625291414558887481689453125int < 0xfcb2cb35e702af785cda735244c3d43fint * 0x80000000000000000000000000000000000000000000000000000000000000000000000int);
    } else if q == 178 {
        assert(entry_value(178) == 0x9defbf01b061adab3a0888136afa64a7int);
        assert(table_exponent(178) == -286);
        assert(0x9defbf01b061adab3a0888136afa64a7int * 0x400000000000000000000000000000000000000000000000000000000000000000000000int <= 26101217871994098106841176437026190222804657032275866191034545821878892978389944908891584507415473126457072794437408447265625int && 26101217871994098106841176437026190222804657032275866191034545821878892978389944908891584507415473126457072794437408447265625int < 0x9defbf01b061adab3a0888136afa64a8int * 0x400000000000000000000000000000000000000000000000000000000000000000000000int);
    } else if q == 179 {
        assert(entry_value(179) == 0xc56baec21c7a1916088aaa1845b8fdd0int);
        assert(table_exponent(179) == -288);
        assert(0xc56baec21c7a1916088aaa1845b8fdd0int * 0x1000000000000000000000000000000000000000000000000000000000000000000000000int <= 130506089359970490534205882185130951114023285161379330955172729109394464891949724544457922537077365632285363972187042236328125int && 130506089359970490534205882185130951114023285161379330955172729109394464891949724544457922537077365632285363972187042236328125int < 0xc56baec21c7a1916088aaa1845b8fdd1int * 0x1000000000000000000000000000000000000000000000000000000000000000000000000int);
    } else if q == 180 {
        assert(entry_value(180) == 0xf6c69a72a3989f5b8aad549e57273d45int);
        assert(table_exponent(180) == -290);
        assert(0xf6c69a72a3989f5b8aad549e57273d45int * 0x4000000000000000000000000000000000000000000000000000000000000000000000000int <= 652530446799852452671029410925654755570116425806896654775863645546972324459748622722289612685386828161426819860935211181640625int && 652530446799852452671029410925654755570116425806896654775863645546972324459748622722289612685386828161426819860935211181640625int < 0xf6c69a72a3989f5b8aad549e57273d46int * 0x4000000000000000000000000000000000000000000000000000000000000000000000000int);
    } else if q == 181 {
        assert(entry_value(181) == 0x9a3c2087a63f639936ac54e2f678864bint);
        assert(table_exponent(181) == -293);
        assert(0x9a3c2087a63f639936ac54e2f678864bint * 0x20000000000000000000000000000000000000000000000000000000000000000000000000int <= 3262652233999262263355147054628273777850582129034483273879318227734861622298743113611448063426934140807134099304676055908203125int && 3262652233999262263355147054628273777850582129034483273879318227734861622298743113611448063426934140807134099304676055908203125int < 0x9a3c2087a63f639936ac54e2f678864cint * 0x20000000000000000000000000000000000000000000000000000000000000000000000000int);
    } else if q == 182 {
        assert(entry_value(182) == 0xc0cb28a98fcf3c7f84576a1bb416a7ddint);
        assert(table_exponent(182) == -295);
        assert(0xc0cb28a98fcf3c7f84576a1bb416a7ddint * 0x80000000000000000000000000000000000000000000000000000000000000000000000000int <= 16313261169996311316775735273141368889252910645172416369396591138674308111493715568057240317134670704035670496523380279541015625int && 16313261169996311316775735273141368889252910645172416369396591138674308111493715568057240317134670704035670496523380279541015625int < 0xc0cb28a98fcf3c7f84576a1bb416a7deint * 0x80000000000000000000000000000000000000000000000000000000000000000000000000int);
    } else if q == 183 {
        assert(entry_value(183) == 0xf0fdf2d3f3c30b9f656d44a2a11c51d5int);
        assert(table_exponent(183) == -297);
        assert(0xf0fdf2d3f3c30b9f656d44a2a11c51d5int * 0x200000000000000000000000000000000000000000000000000000000000000000000000000int <= 81566305849981556583878676365706844446264553225862081846982955693371540557468577840286201585673353520178352482616901397705078125int && 81566305849981556583878676365706844446264553225862081846982955693371540557468577840286201585673353520178352482616901397705078125int < 0xf0fdf2d3f3c30b9f656d44a2a11c51d6int * 0x200000000000000000000000000000000000000000000000000000000000000000000000000int);
    } else if q == 184 {
        assert(entry_value(184) == 0x969eb7c47859e7439f644ae5a4b1b325int);
        assert(table_exponent(184) == -300);
        assert(0x969eb7c47859e7439f644ae5a4b1b325int * 0x1000000000000000000000000000000000000000000000000000000000000000000000000000int <= 407831529249907782919393381828534222231322766129310409234914778466857702787342889201431007928366767600891762413084506988525390625int && 407831529249907782919393381828534222231322766129310409234914778466857702787342889201431007928366767600891762413084506988525390625int < 0x969eb7c47859e7439f644ae5a4b1b326int * 0x1000000000000000000000000000000000000000000000000000000000000000000000000000int);
    } else if q == 185 {
        assert(entry_value(185) == 0xbc4665b596706114873d5d9f0dde1feeint);
        assert(table_exponent(185) == -302);
        assert(0xbc4665b596706114873d5d9f0dde1feeint * 0x4000000000000000000000000000000000000000000000000000000000000000000000000000int <= 2039157646249538914596966909142671111156613830646552046174573892334288513936714446007155039641833838004458812065422534942626953125int && 2039157646249538914596966909142671111156613830646552046174573892334288513936714446007155039641833838004458812065422534942626953125int < 0xbc4665b596706114873d5d9f0dde1fefint * 0x4000000000000000000000000000000000000000000000000000000000000000000000000000int);
    } else if q == 186 {
        assert(entry_value(186) == 0xeb57ff22fc0c7959a90cb506d155a7eaint);
        assert(table_exponent(186) == -304);
        assert(0xeb57ff22fc0c7959a90cb506d155a7eaint * 0x10000000000000000000000000000000000000000000000000000000000000000000000000000int <= 10195788231247694572984834545713355555783069153232760230872869461671442569683572230035775198209169190022294060327112674713134765625int && 10195788231247694572984834545713355555783069153232760230872869461671442569683572230035775198209169190022294060327112674713134765625int < 0xeb57ff22fc0c7959a90cb506d155a7ebint * 0x10000000000000000000000000000000000000000000000000000000000000000000000000000int);
    } else if q == 187 {
        assert(entry_value(187) == 0x9316ff75dd87cbd809a7f12442d588f2int);
        assert(table_exponent(187) == -307);
        assert(0x9316ff75dd87cbd809a7f12442d588f2int * 0x80000000000000000000000000000000000000000000000000000000000000000000000000000int <= 50978941156238472864924172728566777778915345766163801154364347308357212848417861150178875991045845950111470301635563373565673828125int && 50978941156238472864924172728566777778915345766163801154364347308357212848417861150178875991045845950111470301635563373565673828125int < 0x9316ff75dd87cbd809a7f12442d588f3int * 0x80000000000000000000000000000000000000000000000000000000000000000000000000000int);
    } else if q == 188 {
        assert(entry_value(188) == 0xb7dcbf5354e9bece0c11ed6d538aeb2fint);
        assert(table_exponent(188) == -309);
        assert(0xb7dcbf5354e9bece0c11ed6d538aeb2fint * 0x200000000000000000000000000000000000000000000000000000000000000000000000000000int <= 254894705781192364324620863642833888894576728830819005771821736541786064242089305750894379955229229750557351508177816867828369140625int && 254894705781192364324620863642833888894576728830819005771821736541786064242089305750894379955229229750557351508177816867828369140625int < 0xb7dcbf5354e9bece0c11ed6d538aeb30int * 0x200000000000000000000000000000000000000000000000000000000000000000000000000000int);
    } else if q == 189 {
        assert(entry_value(189) == 0xe5d3ef282a242e818f1668c8a86da5faint);
        assert(table_exponent(189) == -311);
        assert(0xe5d3ef282a242e818f1668c8a86da5faint * 0x800000000000000000000000000000000000000000000000000000000000000000000000000000int <= 1274473528905961821623104318214169444472883644154095028859108682708930321210446528754471899776146148752786757540889084339141845703125int && 1274473528905961821623104318214169444472883644154095028859108682708930321210446528754471899776146148752786757540889084339141845703125int < 0xe5d3ef282a242e818f1668c8a86da5fbint * 0x800000000000000000000000000000000000000000000000000000000000000000000000000000int);
    } else if q == 190 {
        assert(entry_value(190) == 0x8fa475791a569d10f96e017d694487bcint);
        assert(table_exponent(190) == -314);
        assert(0x8fa475791a569d10f96e017d694487bcint * 0x4000000000000000000000000000000000000000000000000000000000000000000000000000000int <= 6372367644529809108115521591070847222364418220770475144295543413544651606052232643772359498880730743763933787704445421695709228515625int && 6372367644529809108115521591070847222364418220770475144295543413544651606052232643772359498880730743763933787704445421695709228515625int < 0x8fa475791a569d10f96e017d694487bdint * 0x4000000000000000000000000000000000000000000000000000000000000000000000000000000int);
    } else if q == 191 {
        assert(entry_value(191) == 0xb38d92d760ec445537c981dcc395a9acint);
        assert(table_exponent(191) == -316);
        assert(0xb38d92d760ec445537c981dcc395a9acint * 0x10000000000000000000000000000000000000000000000000000000000000000000000000000000int <= 31861838222649045540577607955354236111822091103852375721477717067723258030261163218861797494403653718819668938522227108478546142578125int && 31861838222649045540577607955354236111822091103852375721477717067723258030261163218861797494403653718819668938522227108478546142578125int < 0xb38d92d760ec445537c981dcc395a9adint * 0x10000000000000000000000000000000000000000000000000000000000000000000000000000000int);
    } else if q == 192 {
        assert(entry_value(192) == 0xe070f78d3927556a85bbe253f47b1417int);
        assert(table_exponent(192) == -318);
        assert(0xe070f78d3927556a85bbe253f47b1417int * 0x40000000000000000000000000000000000000000000000000000000000000000000000000000000int <= 159309191113245227702888039776771180559110455519261878607388585338616290151305816094308987472018268594098344692611135542392730712890625int && 159309191113245227702888039776771180559110455519261878607388585338616290151305816094308987472018268594098344692611135542392730712890625int < 0xe070f78d3927556a85bbe253f47b1418int * 0x40000000000000000000000000000000000000000000000000000000000000000000000000000000int);
    } else if q == 193 {
        assert(entry_value(193) == 0x8c469ab843b8956293956d7478ccec8eint);
        assert(table_exponent(193) == -321);
        assert(0x8c469ab843b8956293956d7478ccec8eint * 0x200000000000000000000000000000000000000000000000000000000000000000000000000000000int <= 796545955566226138514440198883855902795552277596309393036942926693081450756529080471544937360091342970491723463055677711963653564453125int && 796545955566226138514440198883855902795552277596309393036942926693081450756529080471544937360091342970491723463055677711963653564453125int < 0x8c469ab843b8956293956d7478ccec8fint * 0x200000000000000000000000000000000000000000000000000000000000000000000000000000000int);
    } else if q == 194 {
        assert(entry_value(194) == 0xaf58416654a6babb387ac8d1970027b2int);
        assert(table_exponent(194) == -323);
        assert(0xaf58416654a6babb387ac8d1970027b2int * 0x800000000000000000000000000000000000000000000000000000000000000000000000000000000int <= 3982729777831130692572200994419279513977761387981546965184714633465407253782645402357724686800456714852458617315278388559818267822265625int && 3982729777831130692572200994419279513977761387981546965184714633465407253782645402357724686800456714852458617315278388559818267822265625int < 0xaf58416654a6babb387ac8d1970027b3int * 0x800000000000000000000000000000000000000000000000000000000000000000000000000000000int);
    } else if q == 195 {
        assert(entry_value(195) == 0xdb2e51bfe9d0696a06997b05fcc0319eint);
        assert(table_exponent(195) == -325);
        assert(0xdb2e51bfe9d0696a06997b05fcc0319eint * 0x2000000000000000000000000000000000000000000000000000000000000000000000000000000000int <= 19913648889155653462861004972096397569888806939907734825923573167327036268913227011788623434002283574262293086576391942799091339111328125int && 19913648889155653462861004972096397569888806939907734825923573167327036268913227011788623434002283574262293086576391942799091339111328125int < 0xdb2e51bfe9d0696a06997b05fcc0319fint * 0x2000000000000000000000000000000000000000000000000000000000000000000000000000000000int);
    } else if q == 196 {
        assert(entry_value(196) == 0x88fcf317f22241e2441fece3bdf81f03int);
        assert(table_exponent(196) == -328);
        assert(0x88fcf317f22241e2441fece3bdf81f03int * 0x10000000000000000000000000000000000000000000000000000000000000000000000000000000000int <= 99568244445778267314305024860481987849444034699538674129617865836635181344566135058943117170011417871311465432881959713995456695556640625int && 99568244445778267314305024860481987849444034699538674129617865836635181344566135058943117170011417871311465432881959713995456695556640625int < 0x88fcf317f22241e2441fece3bdf81f04int * 0x10000000000000000000000000000000000000000000000000000000000000000000000000000000000int);
    } else if q == 197 {
        assert(entry_value(197) == 0xab3c2fddeeaad25ad527e81cad7626c3int);
        assert(table_exponent(197) == -330);
        assert(0xab3c2fddeeaad25ad527e81cad7626c3int * 0x40000000000000000000000000000000000000000000000000000000000000000000000000000000000int <= 497841222228891336571525124302409939247220173497693370648089329183175906722830675294715585850057089356557327164409798569977283477783203125int && 497841222228891336571525124302409939247220173497693370648089329183175906722830675294715585850057089356557327164409798569977283477783203125int < 0xab3c2fddeeaad25ad527e81cad7626c4int * 0x40000000000000000000000000000000000000000000000000000000000000000000000000000000000int);
    }
}

/// A part of the entries of the table, each held against its power of five.
proof fn lemma_entries_18(q: int)
    requires
        198 <= q <= 227,
    ensures
        approximates(q),
{
    lemma_pow5_values_4();
    lemma_pow5_values_5();
    lemma_pow2_values_3();
    lemma_pow2_values_8();
    lemma_pow2_values_9();
    lemma_pow2_values_10();
    if q == 198 {
        assert(entry_value(198) == 0xd60b3bd56a5586f18a71e223d8d3b074int);
        assert(table_exponent(198) == -332);
        assert(0xd60b3bd56a5586f18a71e223d8d3b074int * 0x100000000000000000000000000000000000000000000000000000000000000000000000000000000000int <= 2489206111144456682857625621512049696236100867488466853240446645915879533614153376473577929250285446782786635822048992849886417388916015625int && 2489206111144456682857625621512049696236100867488466853240446645915879533614153376473577929250285446782786635822048992849886417388916015625int < 0xd60b3bd56a5586f18a71e223d8d3b075int * 0x100000000000000000000000000000000000000000000000000000000000000000000000000000000000int);
    } else if q == 199 {
        assert(entry_value(199) == 0x85c7056562757456f6872d5667844e49int);
        assert(table_exponent(199) == -335);
        assert(0x85c7056562757456f6872d5667844e49int * 0x800000000000000000000000000000000000000000000000000000000000000000000000000000000000int <= 12446030555722283414288128107560248481180504337442334266202233229579397668070766882367889646251427233913933179110244964249432086944580078125int && 12446030555722283414288128107560248481180504337442334266202233229579397668070766882367889646251427233913933179110244964249432086944580078125int < 0x85c7056562757456f6872d5667844e4aint * 0x800000000000000000000000000000000000000000000000000000000000000000000000000000000000int);
    } else if q == 200 {
        assert(entry_value(200) == 0xa738c6bebb12d16cb428f8ac016561dbint);
        assert(table_exponent(200) == -337);
        assert(0xa738c6bebb12d16cb428f8ac016561dbint * 0x2000000000000000000000000000000000000000000000000000000000000000000000000000000000000int <= 62230152778611417071440640537801242405902521687211671331011166147896988340353834411839448231257136169569665895551224821247160434722900390625int && 62230152778611417071440640537801242405902521687211671331011166147896988340353834411839448231257136169569665895551224821247160434722900390625int < 0xa738c6bebb12d16cb428f8ac016561dcint * 0x2000000000000000000000000000000000000000000000000000000000000000000000000000000000000int);
    } else if q == 201 {
        assert(entry_value(201) == 0xd106f86e69d785c7e13336d701beba52int);
        assert(table_exponent(201) == -339);
        assert(0xd106f86e69d785c7e13336d701beba52int * 0x8000000000000000000000000000000000000000000000000000000000000000000000000000000000000int <= 311150763893057085357203202689006212029512608436058356655055830739484941701769172059197241156285680847848329477756124106235802173614501953125int && 311150763893057085357203202689006212029512608436058356655055830739484941701769172059197241156285680847848329477756124106235802173614501953125int < 0xd106f86e69d785c7e13336d701beba53int * 0x8000000000000000000000000000000000000000000000000000000000000000000000000000000000000int);
    } else if q == 202 {
        assert(entry_value(202) == 0x82a45b450226b39cecc0024661173473int);
        assert(table_exponent(202) == -342);
        assert(0x82a45b450226b39cecc0024661173473int * 0x40000000000000000000000000000000000000000000000000000000000000000000000000000000000000int <= 1555753819465285426786016013445031060147563042180291783275279153697424708508845860295986205781428404239241647388780620531179010868072509765625int && 1555753819465285426786016013445031060147563042180291783275279153697424708508845860295986205781428404239241647388780620531179010868072509765625int < 0x82a45b450226b39cecc0024661173474int * 0x40000000000000000000000000000000000000000000000000000000000000000000000000000000000000int);
    } else if q == 203 {
        assert(entry_value(203) == 0xa34d721642b0608427f002d7f95d0190int);
        assert(table_exponent(203) == -344);
        assert(0xa34d721642b0608427f002d7f95d0190int * 0x100000000000000000000000000000000000000000000000000000000000000000000000000000000000000int <= 7778769097326427133930080067225155300737815210901458916376395768487123542544229301479931028907142021196208236943903102655895054340362548828125int && 7778769097326427133930080067225155300737815210901458916376395768487123542544229301479931028907142021196208236943903102655895054340362548828125int < 0xa34d721642b0608427f002d7f95d0191int * 0x100000000000000000000000000000000000000000000000000000000000000000000000000000000000000int);
    } else if q == 204 {
        assert(entry_value(204) == 0xcc20ce9bd35c78a531ec038df7b441f4int);
        assert(table_exponent(204) == -346);
        assert(0xcc20ce9bd35c78a531ec038df7b441f4int * 0x400000000000000000000000000000000000000000000000000000000000000000000000000000000000000int <= 38893845486632135669650400336125776503689076054507294581881978842435617712721146507399655144535710105981041184719515513279475271701812744140625int && 38893845486632135669650400336125776503689076054507294581881978842435617712721146507399655144535710105981041184719515513279475271701812744140625int < 0xcc20ce9bd35c78a531ec038df7b441f5int * 0x400000000000000000000000000000000000000000000000000000000000000000000000000000000000000int);
    } else if q == 205 {
        assert(entry_value(205) == 0xff290242c83396ce7e67047175a15271int);
        assert(table_exponent(205) == -348);
        assert(0xff290242c83396ce7e67047175a15271int * 0x1000000000000000000000000000000000000000000000000000000000000000000000000000000000000000int <= 194469227433160678348252001680628882518445380272536472909409894212178088563605732536998275722678550529905205923597577566397376358509063720703125int && 194469227433160678348252001680628882518445380272536472909409894212178088563605732536998275722678550529905205923597577566397376358509063720703125int < 0xff290242c83396ce7e67047175a15272int * 0x1000000000000000000000000000000000000000000000000000000000000000000000000000000000000000int);
    } else if q == 206 {
        assert(entry_value(206) == 0x9f79a169bd203e410f0062c6e984d386int);
        assert(table_exponent(206) == -351);
        assert(0x9f79a169bd203e410f0062c6e984d386int * 0x8000000000000000000000000000000000000000000000000000000000000000000000000000000000000000int <= 972346137165803391741260008403144412592226901362682364547049471060890442818028662684991378613392752649526029617987887831986881792545318603515625int && 972346137165803391741260008403144412592226901362682364547049471060890442818028662684991378613392752649526029617987887831986881792545318603515625int < 0x9f79a169bd203e410f0062c6e984d387int * 0x8000000000000000000000000000000000000000000000000000000000000000000000000000000000000000int);
    } else if q == 207 {
        assert(entry_value(207) == 0xc75809c42c684dd152c07b78a3e60868int);
        assert(table_exponent(207) == -353);
        assert(0xc75809c42c684dd152c07b78a3e60868int * 0x20000000000000000000000000000000000000000000000000000000000000000000000000000000000000000int <= 4861730685829016958706300042015722062961134506813411822735247355304452214090143313424956893066963763247630148089939439159934408962726593017578125int && 4861730685829016958706300042015722062961134506813411822735247355304452214090143313424956893066963763247630148089939439159934408962726593017578125int < 0xc75809c42c684dd152c07b78a3e60869int * 0x20000000000000000000000000000000000000000000000000000000000000000000000000000000000000000int);
    } else if q == 208 {
        assert(entry_value(208) == 0xf92e0c3537826145a7709a56ccdf8a82int);
        assert(table_exponent(208) == -355);
        assert(0xf92e0c3537826145a7709a56ccdf8a82int * 0x80000000000000000000000000000000000000000000000000000000000000000000000000000000000000000int <= 24308653429145084793531500210078610314805672534067059113676236776522261070450716567124784465334818816238150740449697195799672044813632965087890625int && 24308653429145084793531500210078610314805672534067059113676236776522261070450716567124784465334818816238150740449697195799672044813632965087890625int < 0xf92e0c3537826145a7709a56ccdf8a83int * 0x80000000000000000000000000000000000000000000000000000000000000000000000000000000000000000int);
    } else if q == 209 {
        assert(entry_value(209) == 0x9bbcc7a142b17ccb88a66076400bb691int);
        assert(table_exponent(209) == -358);
        assert(0x9bbcc7a142b17ccb88a66076400bb691int * 0x400000000000000000000000000000000000000000000000000000000000000000000000000000000000000000int <= 121543267145725423967657501050393051574028362670335295568381183882611305352253582835623922326674094081190753702248485978998360224068164825439453125int && 121543267145725423967657501050393051574028362670335295568381183882611305352253582835623922326674094081190753702248485978998360224068164825439453125int < 0x9bbcc7a142b17ccb88a66076400bb692int * 0x400000000000000000000000000000000000000000000000000000000000000000000000000000000000000000int);
    } else if q == 210 {
        assert(entry_value(210) == 0xc2abf989935ddbfe6acff893d00ea435int);
        assert(table_exponent(210) == -360);
        assert(0xc2abf989935ddbfe6acff893d00ea435int * 0x1000000000000000000000000000000000000000000000000000000000000000000000000000000000000000000int <= 607716335728627119838287505251965257870141813351676477841905919413056526761267914178119611633370470405953768511242429894991801120340824127197265625int && 607716335728627119838287505251965257870141813351676477841905919413056526761267914178119611633370470405953768511242429894991801120340824127197265625int < 0xc2abf989935ddbfe6acff893d00ea436int * 0x1000000000000000000000000000000000000000000000000000000000000000000000000000000000000000000int);
    } else if q == 211 {
        assert(entry_value(211) == 0xf356f7ebf83552fe0583f6b8c4124d43int);
        assert(table_exponent(211) == -362);
        assert(0xf356f7ebf83552fe0583f6b8c4124d43int * 0x4000000000000000000000000000000000000000000000000000000000000000000000000000000000000000000int <= 3038581678643135599191437526259826289350709066758382389209529597065282633806339570890598058166852352029768842556212149474959005601704120635986328125int && 3038581678643135599191437526259826289350709066758382389209529597065282633806339570890598058166852352029768842556212149474959005601704120635986328125int < 0xf356f7ebf83552fe0583f6b8c4124d44int * 0x4000000000000000000000000000000000000000000000000000000000000000000000000000000000000000000int);
    } else if q == 212 {
        assert(entry_value(212) == 0x98165af37b2153dec3727a337a8b704aint);
        assert(table_exponent(212) == -365);
        assert(0x98165af37b2153dec3727a337a8b704aint * 0x20000000000000000000000000000000000000000000000000000000000000000000000000000000000000000000int <= 15192908393215677995957187631299131446753545333791911946047647985326413169031697854452990290834261760148844212781060747374795028008520603179931640625int && 15192908393215677995957187631299131446753545333791911946047647985326413169031697854452990290834261760148844212781060747374795028008520603179931640625int < 0x98165af37b2153dec3727a337a8b704bint * 0x20000000000000000000000000000000000000000000000000000000000000000000000000000000000000000000int);
    } else if q == 213 {
        assert(entry_value(213) == 0xbe1bf1b059e9a8d6744f18c0592e4c5cint);
        assert(table_exponent(213) == -367);
        assert(0xbe1bf1b059e9a8d6744f18c0592e4c5cint * 0x80000000000000000000000000000000000000000000000000000000000000000000000000000000000000000000int <= 75964541966078389979785938156495657233767726668959559730238239926632065845158489272264951454171308800744221063905303736873975140042603015899658203125int && 75964541966078389979785938156495657233767726668959559730238239926632065845158489272264951454171308800744221063905303736873975140042603015899658203125int < 0xbe1bf1b059e9a8d6744f18c0592e4c5dint * 0x80000000000000000000000000000000000000000000000000000000000000000000000000000000000000000000int);
    } else if q == 214 {
        assert(entry_value(214) == 0xeda2ee1c7064130c1162def06f79df73int);
        assert(table_exponent(214) == -369);
        assert(0xeda2ee1c7064130c1162def06f79df73int * 0x200000000000000000000000000000000000000000000000000000000000000000000000000000000000000000000int <= 379822709830391949898929690782478286168838633344797798651191199633160329225792446361324757270856544003721105319526518684369875700213015079498291015625int && 379822709830391949898929690782478286168838633344797798651191199633160329225792446361324757270856544003721105319526518684369875700213015079498291015625int < 0xeda2ee1c7064130c1162def06f79df74int * 0x200000000000000000000000000000000000000000000000000000000000000000000000000000000000000000000int);
    } else if q == 215 {
        assert(entry_value(215) == 0x9485d4d1c63e8be78addcb5645ac2ba8int);
        assert(table_exponent(215) == -372);
        assert(0x9485d4d1c63e8be78addcb5645ac2ba8int * 0x1000000000000000000000000000000000000000000000000000000000000000000000000000000000000000000000int <= 1899113549151959749494648453912391430844193166723988993255955998165801646128962231806623786354282720018605526597632593421849378501065075397491455078125int && 1899113549151959749494648453912391430844193166723988993255955998165801646128962231806623786354282720018605526597632593421849378501065075397491455078125int < 0x9485d4d1c63e8be78addcb5645ac2ba9int * 0x1000000000000000000000000000000000000000000000000000000000000000000000000000000000000000000000int);
    } else if q == 216 {
        assert(entry_value(216) == 0xb9a74a0637ce2ee16d953e2bd7173692int);
        assert(table_exponent(216) == -374);
        assert(0xb9a74a0637ce2ee16d953e2bd7173692int * 0x4000000000000000000000000000000000000000000000000000000000000000000000000000000000000000000000int <= 9495567745759798747473242269561957154220965833619944966279779990829008230644811159033118931771413600093027632988162967109246892505325376987457275390625int && 9495567745759798747473242269561957154220965833619944966279779990829008230644811159033118931771413600093027632988162967109246892505325376987457275390625int < 0xb9a74a0637ce2ee16d953e2bd7173693int * 0x4000000000000000000000000000000000000000000000000000000000000000000000000000000000000000000000int);
    } else if q == 217 {
        assert(entry_value(217) == 0xe8111c87c5c1ba99c8fa8db6ccdd0437int);
        assert(table_exponent(217) == -376);
        assert(0xe8111c87c5c1ba99c8fa8db6ccdd0437int * 0x10000000000000000000000000000000000000000000000000000000000000000000000000000000000000000000000int <= 47477838728798993737366211347809785771104829168099724831398899954145041153224055795165594658857068000465138164940814835546234462526626884937286376953125int && 47477838728798993737366211347809785771104829168099724831398899954145041153224055795165594658857068000465138164940814835546234462526626884937286376953125int < 0xe8111c87c5c1ba99c8fa8db6ccdd0438int * 0x10000000000000000000000000000000000000000000000000000000000000000000000000000000000000000000000int);
    } else if q == 218 {
        assert(entry_value(218) == 0x910ab1d4db9914a01d9c9892400a22a2int);
        assert(table_exponent(218) == -379);
        assert(0x910ab1d4db9914a01d9c9892400a22a2int * 0x80000000000000000000000000000000000000000000000000000000000000000000000000000000000000000000000int <= 237389193643994968686831056739048928855524145840498624156994499770725205766120278975827973294285340002325690824704074177731172312633134424686431884765625int && 237389193643994968686831056739048928855524145840498624156994499770725205766120278975827973294285340002325690824704074177731172312633134424686431884765625int < 0x910ab1d4db9914a01d9c9892400a22a3int * 0x80000000000000000000000000000000000000000000000000000000000000000000000000000000000000000000000int);
    } else if q == 219 {
        assert(entry_value(219) == 0xb54d5e4a127f59c82503beb6d00cab4bint);
        assert(table_exponent(219) == -381);
        assert(0xb54d5e4a127f59c82503beb6d00cab4bint * 0x200000000000000000000000000000000000000000000000000000000000000000000000000000000000000000000000int <= 1186945968219974843434155283695244644277620729202493120784972498853626028830601394879139866471426700011628454123520370888655861563165672123432159423828125int && 1186945968219974843434155283695244644277620729202493120784972498853626028830601394879139866471426700011628454123520370888655861563165672123432159423828125int < 0xb54d5e4a127f59c82503beb6d00cab4cint * 0x200000000000000000000000000000000000000000000000000000000000000000000000000000000000000000000000int);
    } else if q == 220 {
        assert(entry_value(220) == 0xe2a0b5dc971f303a2e44ae64840fd61dint);
        assert(table_exponent(220) == -383);
        assert(0xe2a0b5dc971f303a2e44ae64840fd61dint * 0x800000000000000000000000000000000000000000000000000000000000000000000000000000000000000000000000int <= 5934729841099874217170776418476223221388103646012465603924862494268130144153006974395699332357133500058142270617601854443279307815828360617160797119140625int && 5934729841099874217170776418476223221388103646012465603924862494268130144153006974395699332357133500058142270617601854443279307815828360617160797119140625int < 0xe2a0b5dc971f303a2e44ae64840fd61eint * 0x800000000000000000000000000000000000000000000000000000000000000000000000000000000000000000000000int);
    } else if q == 221 {
        assert(entry_value(221) == 0x8da471a9de737e245ceaecfed289e5d2int);
        assert(table_exponent(221) == -386);
        assert(0x8da471a9de737e245ceaecfed289e5d2int * 0x4000000000000000000000000000000000000000000000000000000000000000000000000000000000000000000000000int <= 29673649205499371085853882092381116106940518230062328019624312471340650720765034871978496661785667500290711353088009272216396539079141803085803985595703125int && 29673649205499371085853882092381116106940518230062328019624312471340650720765034871978496661785667500290711353088009272216396539079141803085803985595703125int < 0x8da471a9de737e245ceaecfed289e5d3int * 0x4000000000000000000000000000000000000000000000000000000000000000000000000000000000000000000000000int);
    } else if q == 222 {
        assert(entry_value(222) == 0xb10d8e1456105dad7425a83e872c5f47int);
        assert(table_exponent(222) == -388);
        assert(0xb10d8e1456105dad7425a83e872c5f47int * 0x10000000000000000000000000000000000000000000000000000000000000000000000000000000000000000000000000int <= 148368246027496855429269410461905580534702591150311640098121562356703253603825174359892483308928337501453556765440046361081982695395709015429019927978515625int && 148368246027496855429269410461905580534702591150311640098121562356703253603825174359892483308928337501453556765440046361081982695395709015429019927978515625int < 0xb10d8e1456105dad7425a83e872c5f48int * 0x10000000000000000000000000000000000000000000000000000000000000000000000000000000000000000000000000int);
    } else if q == 223 {
        assert(entry_value(223) == 0xdd50f1996b947518d12f124e28f77719int);
        assert(table_exponent(223) == -390);
        assert(0xdd50f1996b947518d12f124e28f77719int * 0x40000000000000000000000000000000000000000000000000000000000000000000000000000000000000000000000000int <= 741841230137484277146347052309527902673512955751558200490607811783516268019125871799462416544641687507267783827200231805409913476978545077145099639892578125int && 741841230137484277146347052309527902673512955751558200490607811783516268019125871799462416544641687507267783827200231805409913476978545077145099639892578125int < 0xdd50f1996b947518d12f124e28f7771aint * 0x40000000000000000000000000000000000000000000000000000000000000000000000000000000000000000000000000int);
    } else if q == 224 {
        assert(entry_value(224) == 0x8a5296ffe33cc92f82bd6b70d99aaa6fint);
        assert(table_exponent(224) == -393);
        assert(0x8a5296ffe33cc92f82bd6b70d99aaa6fint * 0x200000000000000000000000000000000000000000000000000000000000000000000000000000000000000000000000000int <= 3709206150687421385731735261547639513367564778757791002453039058917581340095629358997312082723208437536338919136001159027049567384892725385725498199462890625int && 3709206150687421385731735261547639513367564778757791002453039058917581340095629358997312082723208437536338919136001159027049567384892725385725498199462890625int < 0x8a5296ffe33cc92f82bd6b70d99aaa70int * 0x200000000000000000000000000000000000000000000000000000000000000000000000000000000000000000000000000int);
    } else if q == 225 {
        assert(entry_value(225) == 0xace73cbfdc0bfb7b636cc64d1001550bint);
        assert(table_exponent(225) == -395);
        assert(0xace73cbfdc0bfb7b636cc64d1001550bint * 0x800000000000000000000000000000000000000000000000000000000000000000000000000000000000000000000000000int <= 18546030753437106928658676307738197566837823893788955012265195294587906700478146794986560413616042187681694595680005795135247836924463626928627490997314453125int && 18546030753437106928658676307738197566837823893788955012265195294587906700478146794986560413616042187681694595680005795135247836924463626928627490997314453125int < 0xace73cbfdc0bfb7b636cc64d1001550cint * 0x800000000000000000000000000000000000000000000000000000000000000000000000000000000000000000000000000int);
    } else if q == 226 {
        assert(entry_value(226) == 0xd8210befd30efa5a3c47f7e05401aa4eint);
        assert(table_exponent(226) == -397);
        assert(0xd8210befd30efa5a3c47f7e05401aa4eint * 0x2000000000000000000000000000000000000000000000000000000000000000000000000000000000000000000000000000int <= 92730153767185534643293381538690987834189119468944775061325976472939533502390733974932802068080210938408472978400028975676239184622318134643137454986572265625int && 92730153767185534643293381538690987834189119468944775061325976472939533502390733974932802068080210938408472978400028975676239184622318134643137454986572265625int < 0xd8210befd30efa5a3c47f7e05401aa4fint * 0x2000000000000000000000000000000000000000000000000000000000000000000000000000000000000000000000000000int);
    } else if q == 227 {
        assert(entry_value(227) == 0x8714a775e3e95c7865acfaec34810a71int);
        assert(table_exponent(227) == -400);
        assert(0x8714a775e3e95c7865acfaec34810a71int * 0x10000000000000000000000000000000000000000000000000000000000000000000000000000000000000000000000000000int <= 463650768835927673216466907693454939170945597344723875306629882364697667511953669874664010340401054692042364892000144878381195923111590673215687274932861328125int && 463650768835927673216466907693454939170945597344723875306629882364697667511953669874664010340401054692042364892000144878381195923111590673215687274932861328125int < 0x8714a775e3e95c7865acfaec34810a72int * 0x10000000000000000000000000000000000000000000000000000000000000000000000000000000000000000000000000000int);
    }
}

/// A part of the entries of the table, each held against its power of five.
proof fn lemma_entries_19(q: int)
    requires
        228 <= q <= 257,
    ensures
        approximates(q),
{
    lemma_pow5_values_5();
    lemma_pow5_values_6();
    lemma_pow2_values_3();
    lemma_pow2_values_10();
    lemma_pow2_values_11();
    if q == 228 {
        assert(entry_value(228) == 0xa8d9d1535ce3b3967f1839a741a14d0dint);
        assert(table_exponent(228) == -402);
        assert(0xa8d9d1535ce3b3967f1839a741a14d0dint * 0x40000000000000000000000000000000000000000000000000000000000000000000000000000000000000000000000000000int <= 2318253844179638366082334538467274695854727986723619376533149411823488337559768349373320051702005273460211824460000724391905979615557953366078436374664306640625int && 2318253844179638366082334538467274695854727986723619376533149411823488337559768349373320051702005273460211824460000724391905979615557953366078436374664306640625int < 0xa8d9d1535ce3b3967f1839a741a14d0eint * 0x40000000000000000000000000000000000000000000000000000000000000000000000000000000000000000000000000000int);
    } else if q == 229 {
        assert(entry_value(229) == 0xd31045a8341ca07c1ede48111209a050int);
        assert(table_exponent(229) == -404);
        assert(0xd31045a8341ca07c1ede48111209a050int * 0x100000000000000000000000000000000000000000000000000000000000000000000000000000000000000000000000000000int <= 11591269220898191830411672692336373479273639933618096882665747059117441687798841746866600258510026367301059122300003621959529898077789766830392181873321533203125int && 11591269220898191830411672692336373479273639933618096882665747059117441687798841746866600258510026367301059122300003621959529898077789766830392181873321533203125int < 0xd31045a8341ca07c1ede48111209a051int * 0x100000000000000000000000000000000000000000000000000000000000000000000000000000000000000000000000000000int);
    } else if q == 230 {
        assert(entry_value(230) == 0x83ea2b892091e44d934aed0aab460432int);
        assert(table_exponent(230) == -407);
        assert(0x83ea2b892091e44d934aed0aab460432int * 0x800000000000000000000000000000000000000000000000000000000000000000000000000000000000000000000000000000int <= 57956346104490959152058363461681867396368199668090484413328735295587208438994208734333001292550131836505295611500018109797649490388948834151960909366607666015625int && 57956346104490959152058363461681867396368199668090484413328735295587208438994208734333001292550131836505295611500018109797649490388948834151960909366607666015625int < 0x83ea2b892091e44d934aed0aab460433int * 0x800000000000000000000000000000000000000000000000000000000000000000000000000000000000000000000000000000int);
    } else if q == 231 {
        assert(entry_value(231) == 0xa4e4b66b68b65d60f81da84d5617853fint);
        assert(table_exponent(231) == -409);
        assert(0xa4e4b66b68b65d60f81da84d5617853fint * 0x2000000000000000000000000000000000000000000000000000000000000000000000000000000000000000000000000000000int <= 289781730522454795760291817308409336981840998340452422066643676477936042194971043671665006462750659182526478057500090548988247451944744170759804546833038330078125int && 289781730522454795760291817308409336981840998340452422066643676477936042194971043671665006462750659182526478057500090548988247451944744170759804546833038330078125int < 0xa4e4b66b68b65d60f81da84d56178540int * 0x2000000000000000000000000000000000000000000000000000000000000000000000000000000000000000000000000000000int);
    } else if q == 232 {
        assert(entry_value(232) == 0xce1de40642e3f4b936251260ab9d668eint);
        assert(table_exponent(232) == -411);
        assert(0xce1de40642e3f4b936251260ab9d668eint * 0x8000000000000000000000000000000000000000000000000000000000000000000000000000000000000000000000000000000int <= 1448908652612273978801459086542046684909204991702262110333218382389680210974855218358325032313753295912632390287500452744941237259723720853799022734165191650390625int && 1448908652612273978801459086542046684909204991702262110333218382389680210974855218358325032313753295912632390287500452744941237259723720853799022734165191650390625int < 0xce1de40642e3f4b936251260ab9d668fint * 0x8000000000000000000000000000000000000000000000000000000000000000000000000000000000000000000000000000000int);
    } else if q == 233 {
        assert(entry_value(233) == 0x80d2ae83e9ce78f3c1d72b7c6b426019int);
        assert(table_exponent(233) == -414);
        assert(0x80d2ae83e9ce78f3c1d72b7c6b426019int * 0x40000000000000000000000000000000000000000000000000000000000000000000000000000000000000000000000000000000int <= 7244543263061369894007295432710233424546024958511310551666091911948401054874276091791625161568766479563161951437502263724706186298618604268995113670825958251953125int && 7244543263061369894007295432710233424546024958511310551666091911948401054874276091791625161568766479563161951437502263724706186298618604268995113670825958251953125int < 0x80d2ae83e9ce78f3c1d72b7c6b42601aint * 0x40000000000000000000000000000000000000000000000000000000000000000000000000000000000000000000000000000000int);
    } else if q == 234 {
        assert(entry_value(234) == 0xa1075a24e4421730b24cf65b8612f81fint);
        assert(table_exponent(234) == -416);
        assert(0xa1075a24e4421730b24cf65b8612f81fint * 0x100000000000000000000000000000000000000000000000000000000000000000000000000000000000000000000000000000000int <= 36222716315306849470036477163551167122730124792556552758330459559742005274371380458958125807843832397815809757187511318623530931493093021344975568354129791259765625int && 36222716315306849470036477163551167122730124792556552758330459559742005274371380458958125807843832397815809757187511318623530931493093021344975568354129791259765625int < 0xa1075a24e4421730b24cf65b8612f820int * 0x100000000000000000000000000000000000000000000000000000000000000000000000000000000000000000000000000000000int);
    } else if q == 235 {
        assert(entry_value(235) == 0xc94930ae1d529cfcdee033f26797b627int);
        assert(table_exponent(235) == -418);
        assert(0xc94930ae1d529cfcdee033f26797b627int * 0x400000000000000000000000000000000000000000000000000000000000000000000000000000000000000000000000000000000int <= 181113581576534247350182385817755835613650623962782763791652297798710026371856902294790629039219161989079048785937556593117654657465465106724877841770648956298828125int && 181113581576534247350182385817755835613650623962782763791652297798710026371856902294790629039219161989079048785937556593117654657465465106724877841770648956298828125int < 0xc94930ae1d529cfcdee033f26797b628int * 0x400000000000000000000000000000000000000000000000000000000000000000000000000000000000000000000000000000000int);
    } else if q == 236 {
        assert(entry_value(236) == 0xfb9b7cd9a4a7443c169840ef017da3b1int);
        assert(table_exponent(236) == -420);
        assert(0xfb9b7cd9a4a7443c169840ef017da3b1int * 0x1000000000000000000000000000000000000000000000000000000000000000000000000000000000000000000000000000000000int <= 905567907882671236750911929088779178068253119813913818958261488993550131859284511473953145196095809945395243929687782965588273287327325533624389208853244781494140625int && 905567907882671236750911929088779178068253119813913818958261488993550131859284511473953145196095809945395243929687782965588273287327325533624389208853244781494140625int < 0xfb9b7cd9a4a7443c169840ef017da3b2int * 0x1000000000000000000000000000000000000000000000000000000000000000000000000000000000000000000000000000000000int);
    } else if q == 237 {
        assert(entry_value(237) == 0x9d412e0806e88aa58e1f289560ee864eint);
        assert(table_exponent(237) == -423);
        assert(0x9d412e0806e88aa58e1f289560ee864eint * 0x8000000000000000000000000000000000000000000000000000000000000000000000000000000000000000000000000000000000int <= 4527839539413356183754559645443895890341265599069569094791307444967750659296422557369765725980479049726976219648438914827941366436636627668121946044266223907470703125int && 4527839539413356183754559645443895890341265599069569094791307444967750659296422557369765725980479049726976219648438914827941366436636627668121946044266223907470703125int < 0x9d412e0806e88aa58e1f289560ee864fint * 0x8000000000000000000000000000000000000000000000000000000000000000000000000000000000000000000000000000000000int);
    } else if q == 238 {
        assert(entry_value(238) == 0xc491798a08a2ad4ef1a6f2bab92a27e2int);
        assert(table_exponent(238) == -425);
        assert(0xc491798a08a2ad4ef1a6f2bab92a27e2int * 0x20000000000000000000000000000000000000000000000000000000000000000000000000000000000000000000000000000000000int <= 22639197697066780918772798227219479451706327995347845473956537224838753296482112786848828629902395248634881098242194574139706832183183138340609730221331119537353515625int && 22639197697066780918772798227219479451706327995347845473956537224838753296482112786848828629902395248634881098242194574139706832183183138340609730221331119537353515625int < 0xc491798a08a2ad4ef1a6f2bab92a27e3int * 0x20000000000000000000000000000000000000000000000000000000000000000000000000000000000000000000000000000000000int);
    } else if q == 239 {
        assert(entry_value(239) == 0xf5b5d7ec8acb58a2ae10af696774b1dbint);
        assert(table_exponent(239) == -427);
        assert(0xf5b5d7ec8acb58a2ae10af696774b1dbint * 0x80000000000000000000000000000000000000000000000000000000000000000000000000000000000000000000000000000000000int <= 113195988485333904593863991136097397258531639976739227369782686124193766482410563934244143149511976243174405491210972870698534160915915691703048651106655597686767578125int && 113195988485333904593863991136097397258531639976739227369782686124193766482410563934244143149511976243174405491210972870698534160915915691703048651106655597686767578125int < 0xf5b5d7ec8acb58a2ae10af696774b1dcint * 0x80000000000000000000000000000000000000000000000000000000000000000000000000000000000000000000000000000000000int);
    } else if q == 240 {
        assert(entry_value(240) == 0x9991a6f3d6bf1765acca6da1e0a8ef29int);
        assert(table_exponent(240) == -430);
        assert(0x9991a6f3d6bf1765acca6da1e0a8ef29int * 0x400000000000000000000000000000000000000000000000000000000000000000000000000000000000000000000000000000000000int <= 565979942426669522969319955680486986292658199883696136848913430620968832412052819671220715747559881215872027456054864353492670804579578458515243255533277988433837890625int && 565979942426669522969319955680486986292658199883696136848913430620968832412052819671220715747559881215872027456054864353492670804579578458515243255533277988433837890625int < 0x9991a6f3d6bf1765acca6da1e0a8ef2aint * 0x400000000000000000000000000000000000000000000000000000000000000000000000000000000000000000000000000000000000int);
    } else if q == 241 {
        assert(entry_value(241) == 0xbff610b0cc6edd3f17fd090a58d32af3int);
        assert(table_exponent(241) == -432);
        assert(0xbff610b0cc6edd3f17fd090a58d32af3int * 0x1000000000000000000000000000000000000000000000000000000000000000000000000000000000000000000000000000000000000int <= 2829899712133347614846599778402434931463290999418480684244567153104844162060264098356103578737799406079360137280274321767463354022897892292576216277666389942169189453125int && 2829899712133347614846599778402434931463290999418480684244567153104844162060264098356103578737799406079360137280274321767463354022897892292576216277666389942169189453125int < 0xbff610b0cc6edd3f17fd090a58d32af4int * 0x1000000000000000000000000000000000000000000000000000000000000000000000000000000000000000000000000000000000000int);
    } else if q == 242 {
        assert(entry_value(242) == 0xeff394dcff8a948eddfc4b4cef07f5b0int);
        assert(table_exponent(242) == -434);
        assert(0xeff394dcff8a948eddfc4b4cef07f5b0int * 0x4000000000000000000000000000000000000000000000000000000000000000000000000000000000000000000000000000000000000int <= 14149498560666738074232998892012174657316454997092403421222835765524220810301320491780517893688997030396800686401371608837316770114489461462881081388331949710845947265625int && 14149498560666738074232998892012174657316454997092403421222835765524220810301320491780517893688997030396800686401371608837316770114489461462881081388331949710845947265625int < 0xeff394dcff8a948eddfc4b4cef07f5b1int * 0x4000000000000000000000000000000000000000000000000000000000000000000000000000000000000000000000000000000000000int);
    } else if q == 243 {
        assert(entry_value(243) == 0x95f83d0a1fb69cd94abdaf101564f98eint);
        assert(table_exponent(243) == -437);
        assert(0x95f83d0a1fb69cd94abdaf101564f98eint * 0x20000000000000000000000000000000000000000000000000000000000000000000000000000000000000000000000000000000000000int <= 70747492803333690371164994460060873286582274985462017106114178827621104051506602458902589468444985151984003432006858044186583850572447307314405406941659748554229736328125int && 70747492803333690371164994460060873286582274985462017106114178827621104051506602458902589468444985151984003432006858044186583850572447307314405406941659748554229736328125int < 0x95f83d0a1fb69cd94abdaf101564f98fint * 0x20000000000000000000000000000000000000000000000000000000000000000000000000000000000000000000000000000000000000int);
    } else if q == 244 {
        assert(entry_value(244) == 0xbb764c4ca7a4440f9d6d1ad41abe37f1int);
        assert(table_exponent(244) == -439);
        assert(0xbb764c4ca7a4440f9d6d1ad41abe37f1int * 0x80000000000000000000000000000000000000000000000000000000000000000000000000000000000000000000000000000000000000int <= 353737464016668451855824972300304366432911374927310085530570894138105520257533012294512947342224925759920017160034290220932919252862236536572027034708298742771148681640625int && 353737464016668451855824972300304366432911374927310085530570894138105520257533012294512947342224925759920017160034290220932919252862236536572027034708298742771148681640625int < 0xbb764c4ca7a4440f9d6d1ad41abe37f2int * 0x80000000000000000000000000000000000000000000000000000000000000000000000000000000000000000000000000000000000000int);
    } else if q == 245 {
        assert(entry_value(245) == 0xea53df5fd18d551384c86189216dc5edint);
        assert(table_exponent(245) == -441);
        assert(0xea53df5fd18d551384c86189216dc5edint * 0x200000000000000000000000000000000000000000000000000000000000000000000000000000000000000000000000000000000000000int <= 1768687320083342259279124861501521832164556874636550427652854470690527601287665061472564736711124628799600085800171451104664596264311182682860135173541493713855743408203125int && 1768687320083342259279124861501521832164556874636550427652854470690527601287665061472564736711124628799600085800171451104664596264311182682860135173541493713855743408203125int < 0xea53df5fd18d551384c86189216dc5eeint * 0x200000000000000000000000000000000000000000000000000000000000000000000000000000000000000000000000000000000000000int);
    } else if q == 246 {
        assert(entry_value(246) == 0x92746b9be2f8552c32fd3cf5b4e49bb4int);
        assert(table_exponent(246) == -444);
        assert(0x92746b9be2f8552c32fd3cf5b4e49bb4int * 0x1000000000000000000000000000000000000000000000000000000000000000000000000000000000000000000000000000000000000000int <= 8843436600416711296395624307507609160822784373182752138264272353452638006438325307362823683555623143998000429000857255523322981321555913414300675867707468569278717041015625int && 8843436600416711296395624307507609160822784373182752138264272353452638006438325307362823683555623143998000429000857255523322981321555913414300675867707468569278717041015625int < 0x92746b9be2f8552c32fd3cf5b4e49bb5int * 0x1000000000000000000000000000000000000000000000000000000000000000000000000000000000000000000000000000000000000000int);
    } else if q == 247 {
        assert(entry_value(247) == 0xb7118682dbb66a773fbc8c33221dc2a1int);
        assert(table_exponent(247) == -446);
        assert(0xb7118682dbb66a773fbc8c33221dc2a1int * 0x4000000000000000000000000000000000000000000000000000000000000000000000000000000000000000000000000000000000000000int <= 44217183002083556481978121537538045804113921865913760691321361767263190032191626536814118417778115719990002145004286277616614906607779567071503379338537342846393585205078125int && 44217183002083556481978121537538045804113921865913760691321361767263190032191626536814118417778115719990002145004286277616614906607779567071503379338537342846393585205078125int < 0xb7118682dbb66a773fbc8c33221dc2a2int * 0x4000000000000000000000000000000000000000000000000000000000000000000000000000000000000000000000000000000000000000int);
    } else if q == 248 {
        assert(entry_value(248) == 0xe4d5e82392a405150fabaf3feaa5334aint);
        assert(table_exponent(248) == -448);
        assert(0xe4d5e82392a405150fabaf3feaa5334aint * 0x10000000000000000000000000000000000000000000000000000000000000000000000000000000000000000000000000000000000000000int <= 221085915010417782409890607687690229020569609329568803456606808836315950160958132684070592088890578599950010725021431388083074533038897835357516896692686714231967926025390625int && 221085915010417782409890607687690229020569609329568803456606808836315950160958132684070592088890578599950010725021431388083074533038897835357516896692686714231967926025390625int < 0xe4d5e82392a405150fabaf3feaa5334bint * 0x10000000000000000000000000000000000000000000000000000000000000000000000000000000000000000000000000000000000000000int);
    } else if q == 249 {
        assert(entry_value(249) == 0x8f05b1163ba6832d29cb4d87f2a7400eint);
        assert(table_exponent(249) == -451);
        assert(0x8f05b1163ba6832d29cb4d87f2a7400eint * 0x80000000000000000000000000000000000000000000000000000000000000000000000000000000000000000000000000000000000000000int <= 1105429575052088912049453038438451145102848046647844017283034044181579750804790663420352960444452892999750053625107156940415372665194489176787584483463433571159839630126953125int && 1105429575052088912049453038438451145102848046647844017283034044181579750804790663420352960444452892999750053625107156940415372665194489176787584483463433571159839630126953125int < 0x8f05b1163ba6832d29cb4d87f2a7400fint * 0x80000000000000000000000000000000000000000000000000000000000000000000000000000000000000000000000000000000000000000int);
    } else if q == 250 {
        assert(entry_value(250) == 0xb2c71d5bca9023f8743e20e9ef511012int);
        assert(table_exponent(250) == -453);
        assert(0xb2c71d5bca9023f8743e20e9ef511012int * 0x200000000000000000000000000000000000000000000000000000000000000000000000000000000000000000000000000000000000000000int <= 5527147875260444560247265192192255725514240233239220086415170220907898754023953317101764802222264464998750268125535784702076863325972445883937922417317167855799198150634765625int && 5527147875260444560247265192192255725514240233239220086415170220907898754023953317101764802222264464998750268125535784702076863325972445883937922417317167855799198150634765625int < 0xb2c71d5bca9023f8743e20e9ef511013int * 0x200000000000000000000000000000000000000000000000000000000000000000000000000000000000000000000000000000000000000000int);
    } else if q == 251 {
        assert(entry_value(251) == 0xdf78e4b2bd342cf6914da9246b255416int);
        assert(table_exponent(251) == -455);
        assert(0xdf78e4b2bd342cf6914da9246b255416int * 0x800000000000000000000000000000000000000000000000000000000000000000000000000000000000000000000000000000000000000000int <= 27635739376302222801236325960961278627571201166196100432075851104539493770119766585508824011111322324993751340627678923510384316629862229419689612086585839278995990753173828125int && 27635739376302222801236325960961278627571201166196100432075851104539493770119766585508824011111322324993751340627678923510384316629862229419689612086585839278995990753173828125int < 0xdf78e4b2bd342cf6914da9246b255417int * 0x800000000000000000000000000000000000000000000000000000000000000000000000000000000000000000000000000000000000000000int);
    } else if q == 252 {
        assert(entry_value(252) == 0x8bab8eefb6409c1a1ad089b6c2f7548eint);
        assert(table_exponent(252) == -458);
        assert(0x8bab8eefb6409c1a1ad089b6c2f7548eint * 0x4000000000000000000000000000000000000000000000000000000000000000000000000000000000000000000000000000000000000000000int <= 138178696881511114006181629804806393137856005830980502160379255522697468850598832927544120055556611624968756703138394617551921583149311147098448060432929196394979953765869140625int && 138178696881511114006181629804806393137856005830980502160379255522697468850598832927544120055556611624968756703138394617551921583149311147098448060432929196394979953765869140625int < 0x8bab8eefb6409c1a1ad089b6c2f7548fint * 0x4000000000000000000000000000000000000000000000000000000000000000000000000000000000000000000000000000000000000000000int);
    } else if q == 253 {
        assert(entry_value(253) == 0xae9672aba3d0c320a184ac2473b529b1int);
        assert(table_exponent(253) == -460);
        assert(0xae9672aba3d0c320a184ac2473b529b1int * 0x10000000000000000000000000000000000000000000000000000000000000000000000000000000000000000000000000000000000000000000int <= 690893484407555570030908149024031965689280029154902510801896277613487344252994164637720600277783058124843783515691973087759607915746555735492240302164645981974899768829345703125int && 690893484407555570030908149024031965689280029154902510801896277613487344252994164637720600277783058124843783515691973087759607915746555735492240302164645981974899768829345703125int < 0xae9672aba3d0c320a184ac2473b529b2int * 0x10000000000000000000000000000000000000000000000000000000000000000000000000000000000000000000000000000000000000000000int);
    } else if q == 254 {
        assert(entry_value(254) == 0xda3c0f568cc4f3e8c9e5d72d90a2741eint);
        assert(table_exponent(254) == -462);
        assert(0xda3c0f568cc4f3e8c9e5d72d90a2741eint * 0x40000000000000000000000000000000000000000000000000000000000000000000000000000000000000000000000000000000000000000000int <= 3454467422037777850154540745120159828446400145774512554009481388067436721264970823188603001388915290624218917578459865438798039578732778677461201510823229909874498844146728515625int && 3454467422037777850154540745120159828446400145774512554009481388067436721264970823188603001388915290624218917578459865438798039578732778677461201510823229909874498844146728515625int < 0xda3c0f568cc4f3e8c9e5d72d90a2741fint * 0x40000000000000000000000000000000000000000000000000000000000000000000000000000000000000000000000000000000000000000000int);
    } else if q == 255 {
        assert(entry_value(255) == 0x8865899617fb18717e2fa67c7a658892int);
        assert(table_exponent(255) == -465);
        assert(0x8865899617fb18717e2fa67c7a658892int * 0x200000000000000000000000000000000000000000000000000000000000000000000000000000000000000000000000000000000000000000000int <= 17272337110188889250772703725600799142232000728872562770047406940337183606324854115943015006944576453121094587892299327193990197893663893387306007554116149549372494220733642578125int && 17272337110188889250772703725600799142232000728872562770047406940337183606324854115943015006944576453121094587892299327193990197893663893387306007554116149549372494220733642578125int < 0x8865899617fb18717e2fa67c7a658893int * 0x200000000000000000000000000000000000000000000000000000000000000000000000000000000000000000000000000000000000000000000int);
    } else if q == 256 {
        assert(entry_value(256) == 0xaa7eebfb9df9de8dddbb901b98feeab7int);
        assert(table_exponent(256) == -467);
        assert(0xaa7eebfb9df9de8dddbb901b98feeab7int * 0x800000000000000000000000000000000000000000000000000000000000000000000000000000000000000000000000000000000000000000000int <= 86361685550944446253863518628003995711160003644362813850237034701685918031624270579715075034722882265605472939461496635969950989468319466936530037770580747746862471103668212890625int && 86361685550944446253863518628003995711160003644362813850237034701685918031624270579715075034722882265605472939461496635969950989468319466936530037770580747746862471103668212890625int < 0xaa7eebfb9df9de8dddbb901b98feeab8int * 0x800000000000000000000000000000000000000000000000000000000000000000000000000000000000000000000000000000000000000000000int);
    } else if q == 257 {
        assert(entry_value(257) == 0xd51ea6fa85785631552a74227f3ea565int);
        assert(table_exponent(257) == -469);
        assert(0xd51ea6fa85785631552a74227f3ea565int * 0x2000000000000000000000000000000000000000000000000000000000000000000000000000000000000000000000000000000000000000000000int <= 431808427754722231269317593140019978555800018221814069251185173508429590158121352898575375173614411328027364697307483179849754947341597334682650188852903738734312355518341064453125int && 431808427754722231269317593140019978555800018221814069251185173508429590158121352898575375173614411328027364697307483179849754947341597334682650188852903738734312355518341064453125int < 0xd51ea6fa85785631552a74227f3ea566int * 0x2000000000000000000000000000000000000000000000000000000000000000000000000000000000000000000000000000000000000000000000int);
    }
}

/// A part of the entries of the table, each held against its power of five.
proof fn lemma_entries_20(q: int)
    requires
        258 <= q <= 287,
    ensures
        approximates(q),
{
    lemma_pow5_values_6();
    lemma_pow5_values_7();
    lemma_pow2_values_3();
    lemma_pow2_values_11();
    lemma_pow2_values_12();
    lemma_pow2_values_13();
    if q == 258 {
        assert(entry_value(258) == 0x8533285c936b35ded53a88958f87275fint);
        assert(table_exponent(258) == -472);
        assert(0x8533285c936b35ded53a88958f87275fint * 0x10000000000000000000000000000000000000000000000000000000000000000000000000000000000000000000000000000000000000000000000int <= 2159042138773611156346587965700099892779000091109070346255925867542147950790606764492876875868072056640136823486537415899248774736707986673413250944264518693671561777591705322265625int && 2159042138773611156346587965700099892779000091109070346255925867542147950790606764492876875868072056640136823486537415899248774736707986673413250944264518693671561777591705322265625int < 0x8533285c936b35ded53a88958f872760int * 0x10000000000000000000000000000000000000000000000000000000000000000000000000000000000000000000000000000000000000000000000int);
    } else if q == 259 {
        assert(entry_value(259) == 0xa67ff273b84603568a892abaf368f137int);
        assert(table_exponent(259) == -474);
        assert(0xa67ff273b84603568a892abaf368f137int * 0x40000000000000000000000000000000000000000000000000000000000000000000000000000000000000000000000000000000000000000000000int <= 10795210693868055781732939828500499463895000455545351731279629337710739753953033822464384379340360283200684117432687079496243873683539933367066254721322593468357808887958526611328125int && 10795210693868055781732939828500499463895000455545351731279629337710739753953033822464384379340360283200684117432687079496243873683539933367066254721322593468357808887958526611328125int < 0xa67ff273b84603568a892abaf368f138int * 0x40000000000000000000000000000000000000000000000000000000000000000000000000000000000000000000000000000000000000000000000int);
    } else if q == 260 {
        assert(entry_value(260) == 0xd01fef10a657842c2d2b7569b0432d85int);
        assert(table_exponent(260) == -476);
        assert(0xd01fef10a657842c2d2b7569b0432d85int * 0x100000000000000000000000000000000000000000000000000000000000000000000000000000000000000000000000000000000000000000000000int <= 53976053469340278908664699142502497319475002277726758656398146688553698769765169112321921896701801416003420587163435397481219368417699666835331273606612967341789044439792633056640625int && 53976053469340278908664699142502497319475002277726758656398146688553698769765169112321921896701801416003420587163435397481219368417699666835331273606612967341789044439792633056640625int < 0xd01fef10a657842c2d2b7569b0432d86int * 0x100000000000000000000000000000000000000000000000000000000000000000000000000000000000000000000000000000000000000000000000int);
    } else if q == 261 {
        assert(entry_value(261) == 0x8213f56a67f6b29b9c3b29620e29fc73int);
        assert(table_exponent(261) == -479);
        assert(0x8213f56a67f6b29b9c3b29620e29fc73int * 0x800000000000000000000000000000000000000000000000000000000000000000000000000000000000000000000000000000000000000000000000int <= 269880267346701394543323495712512486597375011388633793281990733442768493848825845561609609483509007080017102935817176987406096842088498334176656368033064836708945222198963165283203125int && 269880267346701394543323495712512486597375011388633793281990733442768493848825845561609609483509007080017102935817176987406096842088498334176656368033064836708945222198963165283203125int < 0x8213f56a67f6b29b9c3b29620e29fc74int * 0x800000000000000000000000000000000000000000000000000000000000000000000000000000000000000000000000000000000000000000000000int);
    } else if q == 262 {
        assert(entry_value(262) == 0xa298f2c501f45f428349f3ba91b47b8fint);
        assert(table_exponent(262) == -481);
        assert(0xa298f2c501f45f428349f3ba91b47b8fint * 0x2000000000000000000000000000000000000000000000000000000000000000000000000000000000000000000000000000000000000000000000000int <= 1349401336733506972716617478562562432986875056943168966409953667213842469244129227808048047417545035400085514679085884937030484210442491670883281840165324183544726110994815826416015625int && 1349401336733506972716617478562562432986875056943168966409953667213842469244129227808048047417545035400085514679085884937030484210442491670883281840165324183544726110994815826416015625int < 0xa298f2c501f45f428349f3ba91b47b90int * 0x2000000000000000000000000000000000000000000000000000000000000000000000000000000000000000000000000000000000000000000000000int);
    } else if q == 263 {
        assert(entry_value(263) == 0xcb3f2f7642717713241c70a936219a73int);
        assert(table_exponent(263) == -483);
        assert(0xcb3f2f7642717713241c70a936219a73int * 0x8000000000000000000000000000000000000000000000000000000000000000000000000000000000000000000000000000000000000000000000000int <= 6747006683667534863583087392812812164934375284715844832049768336069212346220646139040240237087725177000427573395429424685152421052212458354416409200826620917723630554974079132080078125int && 6747006683667534863583087392812812164934375284715844832049768336069212346220646139040240237087725177000427573395429424685152421052212458354416409200826620917723630554974079132080078125int < 0xcb3f2f7642717713241c70a936219a74int * 0x8000000000000000000000000000000000000000000000000000000000000000000000000000000000000000000000000000000000000000000000000int);
    } else if q == 264 {
        assert(entry_value(264) == 0xfe0efb53d30dd4d7ed238cd383aa0110int);
        assert(table_exponent(264) == -485);
        assert(0xfe0efb53d30dd4d7ed238cd383aa0110int * 0x20000000000000000000000000000000000000000000000000000000000000000000000000000000000000000000000000000000000000000000000000int <= 33735033418337674317915436964064060824671876423579224160248841680346061731103230695201201185438625885002137866977147123425762105261062291772082046004133104588618152774870395660400390625int && 33735033418337674317915436964064060824671876423579224160248841680346061731103230695201201185438625885002137866977147123425762105261062291772082046004133104588618152774870395660400390625int < 0xfe0efb53d30dd4d7ed238cd383aa0111int * 0x20000000000000000000000000000000000000000000000000000000000000000000000000000000000000000000000000000000000000000000000000int);
    } else if q == 265 {
        assert(entry_value(265) == 0x9ec95d1463e8a506f4363804324a40aaint);
        assert(table_exponent(265) == -488);
        assert(0x9ec95d1463e8a506f4363804324a40aaint * 0x100000000000000000000000000000000000000000000000000000000000000000000000000000000000000000000000000000000000000000000000000int <= 168675167091688371589577184820320304123359382117896120801244208401730308655516153476006005927193129425010689334885735617128810526305311458860410230020665522943090763874351978302001953125int && 168675167091688371589577184820320304123359382117896120801244208401730308655516153476006005927193129425010689334885735617128810526305311458860410230020665522943090763874351978302001953125int < 0x9ec95d1463e8a506f4363804324a40abint * 0x100000000000000000000000000000000000000000000000000000000000000000000000000000000000000000000000000000000000000000000000000int);
    } else if q == 266 {
        assert(entry_value(266) == 0xc67bb4597ce2ce48b143c6053edcd0d5int);
        assert(table_exponent(266) == -490);
        assert(0xc67bb4597ce2ce48b143c6053edcd0d5int * 0x400000000000000000000000000000000000000000000000000000000000000000000000000000000000000000000000000000000000000000000000000int <= 843375835458441857947885924101601520616796910589480604006221042008651543277580767380030029635965647125053446674428678085644052631526557294302051150103327614715453819371759891510009765625int && 843375835458441857947885924101601520616796910589480604006221042008651543277580767380030029635965647125053446674428678085644052631526557294302051150103327614715453819371759891510009765625int < 0xc67bb4597ce2ce48b143c6053edcd0d6int * 0x400000000000000000000000000000000000000000000000000000000000000000000000000000000000000000000000000000000000000000000000000int);
    } else if q == 267 {
        assert(entry_value(267) == 0xf81aa16fdc1b81dadd94b7868e94050aint);
        assert(table_exponent(267) == -492);
        assert(0xf81aa16fdc1b81dadd94b7868e94050aint * 0x1000000000000000000000000000000000000000000000000000000000000000000000000000000000000000000000000000000000000000000000000000int <= 4216879177292209289739429620508007603083984552947403020031105210043257716387903836900150148179828235625267233372143390428220263157632786471510255750516638073577269096858799457550048828125int && 4216879177292209289739429620508007603083984552947403020031105210043257716387903836900150148179828235625267233372143390428220263157632786471510255750516638073577269096858799457550048828125int < 0xf81aa16fdc1b81dadd94b7868e94050bint * 0x1000000000000000000000000000000000000000000000000000000000000000000000000000000000000000000000000000000000000000000000000000int);
    } else if q == 268 {
        assert(entry_value(268) == 0x9b10a4e5e9913128ca7cf2b4191c8326int);
        assert(table_exponent(268) == -495);
        assert(0x9b10a4e5e9913128ca7cf2b4191c8326int * 0x8000000000000000000000000000000000000000000000000000000000000000000000000000000000000000000000000000000000000000000000000000int <= 21084395886461046448697148102540038015419922764737015100155526050216288581939519184500750740899141178126336166860716952141101315788163932357551278752583190367886345484293997287750244140625int && 21084395886461046448697148102540038015419922764737015100155526050216288581939519184500750740899141178126336166860716952141101315788163932357551278752583190367886345484293997287750244140625int < 0x9b10a4e5e9913128ca7cf2b4191c8327int * 0x8000000000000000000000000000000000000000000000000000000000000000000000000000000000000000000000000000000000000000000000000000int);
    } else if q == 269 {
        assert(entry_value(269) == 0xc1d4ce1f63f57d72fd1c2f611f63a3f0int);
        assert(table_exponent(269) == -497);
        assert(0xc1d4ce1f63f57d72fd1c2f611f63a3f0int * 0x20000000000000000000000000000000000000000000000000000000000000000000000000000000000000000000000000000000000000000000000000000int <= 105421979432305232243485740512700190077099613823685075500777630251081442909697595922503753704495705890631680834303584760705506578940819661787756393762915951839431727421469986438751220703125int && 105421979432305232243485740512700190077099613823685075500777630251081442909697595922503753704495705890631680834303584760705506578940819661787756393762915951839431727421469986438751220703125int < 0xc1d4ce1f63f57d72fd1c2f611f63a3f1int * 0x20000000000000000000000000000000000000000000000000000000000000000000000000000000000000000000000000000000000000000000000000000int);
    } else if q == 270 {
        assert(entry_value(270) == 0xf24a01a73cf2dccfbc633b39673c8cecint);
        assert(table_exponent(270) == -499);
        assert(0xf24a01a73cf2dccfbc633b39673c8cecint * 0x80000000000000000000000000000000000000000000000000000000000000000000000000000000000000000000000000000000000000000000000000000int <= 527109897161526161217428702563500950385498069118425377503888151255407214548487979612518768522478529453158404171517923803527532894704098308938781968814579759197158637107349932193756103515625int && 527109897161526161217428702563500950385498069118425377503888151255407214548487979612518768522478529453158404171517923803527532894704098308938781968814579759197158637107349932193756103515625int < 0xf24a01a73cf2dccfbc633b39673c8cedint * 0x80000000000000000000000000000000000000000000000000000000000000000000000000000000000000000000000000000000000000000000000000000int);
    } else if q == 271 {
        assert(entry_value(271) == 0x976e41088617ca01d5be0503e085d813int);
        assert(table_exponent(271) == -502);
        assert(0x976e41088617ca01d5be0503e085d813int * 0x400000000000000000000000000000000000000000000000000000000000000000000000000000000000000000000000000000000000000000000000000000int <= 2635549485807630806087143512817504751927490345592126887519440756277036072742439898062593842612392647265792020857589619017637664473520491544693909844072898795985793185536749660968780517578125int && 2635549485807630806087143512817504751927490345592126887519440756277036072742439898062593842612392647265792020857589619017637664473520491544693909844072898795985793185536749660968780517578125int < 0x976e41088617ca01d5be0503e085d814int * 0x400000000000000000000000000000000000000000000000000000000000000000000000000000000000000000000000000000000000000000000000000000int);
    } else if q == 272 {
        assert(entry_value(272) == 0xbd49d14aa79dbc824b2d8644d8a74e18int);
        assert(table_exponent(272) == -504);
        assert(0xbd49d14aa79dbc824b2d8644d8a74e18int * 0x1000000000000000000000000000000000000000000000000000000000000000000000000000000000000000000000000000000000000000000000000000000int <= 13177747429038154030435717564087523759637451727960634437597203781385180363712199490312969213061963236328960104287948095088188322367602457723469549220364493979928965927683748304843902587890625int && 13177747429038154030435717564087523759637451727960634437597203781385180363712199490312969213061963236328960104287948095088188322367602457723469549220364493979928965927683748304843902587890625int < 0xbd49d14aa79dbc824b2d8644d8a74e19int * 0x1000000000000000000000000000000000000000000000000000000000000000000000000000000000000000000000000000000000000000000000000000000int);
    } else if q == 273 {
        assert(entry_value(273) == 0xec9c459d51852ba2ddf8e7d60ed1219eint);
        assert(table_exponent(273) == -506);
        assert(0xec9c459d51852ba2ddf8e7d60ed1219eint * 0x4000000000000000000000000000000000000000000000000000000000000000000000000000000000000000000000000000000000000000000000000000000int <= 65888737145190770152178587820437618798187258639803172187986018906925901818560997451564846065309816181644800521439740475440941611838012288617347746101822469899644829638418741524219512939453125int && 65888737145190770152178587820437618798187258639803172187986018906925901818560997451564846065309816181644800521439740475440941611838012288617347746101822469899644829638418741524219512939453125int < 0xec9c459d51852ba2ddf8e7d60ed1219fint * 0x4000000000000000000000000000000000000000000000000000000000000000000000000000000000000000000000000000000000000000000000000000000int);
    } else if q == 274 {
        assert(entry_value(274) == 0x93e1ab8252f33b45cabb90e5c942b503int);
        assert(table_exponent(274) == -509);
        assert(0x93e1ab8252f33b45cabb90e5c942b503int * 0x20000000000000000000000000000000000000000000000000000000000000000000000000000000000000000000000000000000000000000000000000000000int <= 329443685725953850760892939102188093990936293199015860939930094534629509092804987257824230326549080908224002607198702377204708059190061443086738730509112349498224148192093707621097564697265625int && 329443685725953850760892939102188093990936293199015860939930094534629509092804987257824230326549080908224002607198702377204708059190061443086738730509112349498224148192093707621097564697265625int < 0x93e1ab8252f33b45cabb90e5c942b504int * 0x20000000000000000000000000000000000000000000000000000000000000000000000000000000000000000000000000000000000000000000000000000000int);
    } else if q == 275 {
        assert(entry_value(275) == 0xb8da1662e7b00a173d6a751f3b936243int);
        assert(table_exponent(275) == -511);
        assert(0xb8da1662e7b00a173d6a751f3b936243int * 0x80000000000000000000000000000000000000000000000000000000000000000000000000000000000000000000000000000000000000000000000000000000int <= 1647218428629769253804464695510940469954681465995079304699650472673147545464024936289121151632745404541120013035993511886023540295950307215433693652545561747491120740960468538105487823486328125int && 1647218428629769253804464695510940469954681465995079304699650472673147545464024936289121151632745404541120013035993511886023540295950307215433693652545561747491120740960468538105487823486328125int < 0xb8da1662e7b00a173d6a751f3b936244int * 0x80000000000000000000000000000000000000000000000000000000000000000000000000000000000000000000000000000000000000000000000000000000int);
    } else if q == 276 {
        assert(entry_value(276) == 0xe7109bfba19c0c9d0cc512670a783ad4int);
        assert(table_exponent(276) == -513);
        assert(0xe7109bfba19c0c9d0cc512670a783ad4int * 0x200000000000000000000000000000000000000000000000000000000000000000000000000000000000000000000000000000000000000000000000000000000int <= 8236092143148846269022323477554702349773407329975396523498252363365737727320124681445605758163727022705600065179967559430117701479751536077168468262727808737455603704802342690527439117431640625int && 8236092143148846269022323477554702349773407329975396523498252363365737727320124681445605758163727022705600065179967559430117701479751536077168468262727808737455603704802342690527439117431640625int < 0xe7109bfba19c0c9d0cc512670a783ad5int * 0x200000000000000000000000000000000000000000000000000000000000000000000000000000000000000000000000000000000000000000000000000000000int);
    } else if q == 277 {
        assert(entry_value(277) == 0x906a617d450187e227fb2b80668b24c5int);
        assert(table_exponent(277) == -516);
        assert(0x906a617d450187e227fb2b80668b24c5int * 0x1000000000000000000000000000000000000000000000000000000000000000000000000000000000000000000000000000000000000000000000000000000000int <= 41180460715744231345111617387773511748867036649876982617491261816828688636600623407228028790818635113528000325899837797150588507398757680385842341313639043687278018524011713452637195587158203125int && 41180460715744231345111617387773511748867036649876982617491261816828688636600623407228028790818635113528000325899837797150588507398757680385842341313639043687278018524011713452637195587158203125int < 0x906a617d450187e227fb2b80668b24c6int * 0x1000000000000000000000000000000000000000000000000000000000000000000000000000000000000000000000000000000000000000000000000000000000int);
    } else if q == 278 {
        assert(entry_value(278) == 0xb484f9dc9641e9dab1f9f660802dedf6int);
        assert(table_exponent(278) == -518);
        assert(0xb484f9dc9641e9dab1f9f660802dedf6int * 0x4000000000000000000000000000000000000000000000000000000000000000000000000000000000000000000000000000000000000000000000000000000000int <= 205902303578721156725558086938867558744335183249384913087456309084143443183003117036140143954093175567640001629499188985752942536993788401929211706568195218436390092620058567263185977935791015625int && 205902303578721156725558086938867558744335183249384913087456309084143443183003117036140143954093175567640001629499188985752942536993788401929211706568195218436390092620058567263185977935791015625int < 0xb484f9dc9641e9dab1f9f660802dedf7int * 0x4000000000000000000000000000000000000000000000000000000000000000000000000000000000000000000000000000000000000000000000000000000000int);
    } else if q == 279 {
        assert(entry_value(279) == 0xe1a63853bbd264515e7873f8a0396973int);
        assert(table_exponent(279) == -520);
        assert(0xe1a63853bbd264515e7873f8a0396973int * 0x10000000000000000000000000000000000000000000000000000000000000000000000000000000000000000000000000000000000000000000000000000000000int <= 1029511517893605783627790434694337793721675916246924565437281545420717215915015585180700719770465877838200008147495944928764712684968942009646058532840976092181950463100292836315929889678955078125int && 1029511517893605783627790434694337793721675916246924565437281545420717215915015585180700719770465877838200008147495944928764712684968942009646058532840976092181950463100292836315929889678955078125int < 0xe1a63853bbd264515e7873f8a0396974int * 0x10000000000000000000000000000000000000000000000000000000000000000000000000000000000000000000000000000000000000000000000000000000000int);
    } else if q == 280 {
        assert(entry_value(280) == 0x8d07e33455637eb2db0b487b6423e1e8int);
        assert(table_exponent(280) == -523);
        assert(0x8d07e33455637eb2db0b487b6423e1e8int * 0x80000000000000000000000000000000000000000000000000000000000000000000000000000000000000000000000000000000000000000000000000000000000int <= 5147557589468028918138952173471688968608379581234622827186407727103586079575077925903503598852329389191000040737479724643823563424844710048230292664204880460909752315501464181579649448394775390625int && 5147557589468028918138952173471688968608379581234622827186407727103586079575077925903503598852329389191000040737479724643823563424844710048230292664204880460909752315501464181579649448394775390625int < 0x8d07e33455637eb2db0b487b6423e1e9int * 0x80000000000000000000000000000000000000000000000000000000000000000000000000000000000000000000000000000000000000000000000000000000000int);
    } else if q == 281 {
        assert(entry_value(281) == 0xb049dc016abc5e5f91ce1a9a3d2cda62int);
        assert(table_exponent(281) == -525);
        assert(0xb049dc016abc5e5f91ce1a9a3d2cda62int * 0x200000000000000000000000000000000000000000000000000000000000000000000000000000000000000000000000000000000000000000000000000000000000int <= 25737787947340144590694760867358444843041897906173114135932038635517930397875389629517517994261646945955000203687398623219117817124223550241151463321024402304548761577507320907898247241973876953125int && 25737787947340144590694760867358444843041897906173114135932038635517930397875389629517517994261646945955000203687398623219117817124223550241151463321024402304548761577507320907898247241973876953125int < 0xb049dc016abc5e5f91ce1a9a3d2cda63int * 0x200000000000000000000000000000000000000000000000000000000000000000000000000000000000000000000000000000000000000000000000000000000000int);
    } else if q == 282 {
        assert(entry_value(282) == 0xdc5c5301c56b75f77641a140cc7810fbint);
        assert(table_exponent(282) == -527);
        assert(0xdc5c5301c56b75f77641a140cc7810fbint * 0x800000000000000000000000000000000000000000000000000000000000000000000000000000000000000000000000000000000000000000000000000000000000int <= 128688939736700722953473804336792224215209489530865570679660193177589651989376948147587589971308234729775001018436993116095589085621117751205757316605122011522743807887536604539491236209869384765625int && 128688939736700722953473804336792224215209489530865570679660193177589651989376948147587589971308234729775001018436993116095589085621117751205757316605122011522743807887536604539491236209869384765625int < 0xdc5c5301c56b75f77641a140cc7810fcint * 0x800000000000000000000000000000000000000000000000000000000000000000000000000000000000000000000000000000000000000000000000000000000000int);
    } else if q == 283 {
        assert(entry_value(283) == 0x89b9b3e11b6329baa9e904c87fcb0a9dint);
        assert(table_exponent(283) == -530);
        assert(0x89b9b3e11b6329baa9e904c87fcb0a9dint * 0x4000000000000000000000000000000000000000000000000000000000000000000000000000000000000000000000000000000000000000000000000000000000000int <= 643444698683503614767369021683961121076047447654327853398300965887948259946884740737937949856541173648875005092184965580477945428105588756028786583025610057613719039437683022697456181049346923828125int && 643444698683503614767369021683961121076047447654327853398300965887948259946884740737937949856541173648875005092184965580477945428105588756028786583025610057613719039437683022697456181049346923828125int < 0x89b9b3e11b6329baa9e904c87fcb0a9eint * 0x4000000000000000000000000000000000000000000000000000000000000000000000000000000000000000000000000000000000000000000000000000000000000int);
    } else if q == 284 {
        assert(entry_value(284) == 0xac2820d9623bf429546345fa9fbdcd44int);
        assert(table_exponent(284) == -532);
        assert(0xac2820d9623bf429546345fa9fbdcd44int * 0x10000000000000000000000000000000000000000000000000000000000000000000000000000000000000000000000000000000000000000000000000000000000000int <= 3217223493417518073836845108419805605380237238271639266991504829439741299734423703689689749282705868244375025460924827902389727140527943780143932915128050288068595197188415113487280905246734619140625int && 3217223493417518073836845108419805605380237238271639266991504829439741299734423703689689749282705868244375025460924827902389727140527943780143932915128050288068595197188415113487280905246734619140625int < 0xac2820d9623bf429546345fa9fbdcd45int * 0x10000000000000000000000000000000000000000000000000000000000000000000000000000000000000000000000000000000000000000000000000000000000000int);
    } else if q == 285 {
        assert(entry_value(285) == 0xd732290fbacaf133a97c177947ad4095int);
        assert(table_exponent(285) == -534);
        assert(0xd732290fbacaf133a97c177947ad4095int * 0x40000000000000000000000000000000000000000000000000000000000000000000000000000000000000000000000000000000000000000000000000000000000000int <= 16086117467087590369184225542099028026901186191358196334957524147198706498672118518448448746413529341221875127304624139511948635702639718900719664575640251440342975985942075567436404526233673095703125int && 16086117467087590369184225542099028026901186191358196334957524147198706498672118518448448746413529341221875127304624139511948635702639718900719664575640251440342975985942075567436404526233673095703125int < 0xd732290fbacaf133a97c177947ad4096int * 0x40000000000000000000000000000000000000000000000000000000000000000000000000000000000000000000000000000000000000000000000000000000000000int);
    } else if q == 286 {
        assert(entry_value(286) == 0x867f59a9d4bed6c049ed8eabcccc485dint);
        assert(table_exponent(286) == -537);
        assert(0x867f59a9d4bed6c049ed8eabcccc485dint * 0x200000000000000000000000000000000000000000000000000000000000000000000000000000000000000000000000000000000000000000000000000000000000000int <= 80430587335437951845921127710495140134505930956790981674787620735993532493360592592242243732067646706109375636523120697559743178513198594503598322878201257201714879929710377837182022631168365478515625int && 80430587335437951845921127710495140134505930956790981674787620735993532493360592592242243732067646706109375636523120697559743178513198594503598322878201257201714879929710377837182022631168365478515625int < 0x867f59a9d4bed6c049ed8eabcccc485eint * 0x200000000000000000000000000000000000000000000000000000000000000000000000000000000000000000000000000000000000000000000000000000000000000int);
    } else if q == 287 {
        assert(entry_value(287) == 0xa81f301449ee8c705c68f256bfff5a74int);
        assert(table_exponent(287) == -539);
        assert(0xa81f301449ee8c705c68f256bfff5a74int * 0x800000000000000000000000000000000000000000000000000000000000000000000000000000000000000000000000000000000000000000000000000000000000000int <= 402152936677189759229605638552475700672529654783954908373938103679967662466802962961211218660338233530546878182615603487798715892565992972517991614391006286008574399648551889185910113155841827392578125int && 402152936677189759229605638552475700672529654783954908373938103679967662466802962961211218660338233530546878182615603487798715892565992972517991614391006286008574399648551889185910113155841827392578125int < 0xa81f301449ee8c705c68f256bfff5a75int * 0x800000000000000000000000000000000000000000000000000000000000000000000000000000000000000000000000000000000000000000000000000000000000000int);
    }
}

/// A part of the entries of the table, each held against its power of five.
proof fn lemma_entries_21(q: int)
    requires
        288 <= q <= 308,
    ensures
        approximates(q),
{
    lemma_pow5_values_7();
    lemma_pow2_values_3();
    lemma_pow2_values_13();
    lemma_pow2_values_14();
    if q == 288 {
        assert(entry_value(288) == 0xd226fc195c6a2f8c73832eec6fff3111int);
        assert(table_exponent(288) == -541);
        assert(0xd226fc195c6a2f8c73832eec6fff3111int * 0x2000000000000000000000000000000000000000000000000000000000000000000000000000000000000000000000000000000000000000000000000000000000000000int <= 2010764683385948796148028192762378503362648273919774541869690518399838312334014814806056093301691167652734390913078017438993579462829964862589958071955031430042871998242759445929550565779209136962890625int && 2010764683385948796148028192762378503362648273919774541869690518399838312334014814806056093301691167652734390913078017438993579462829964862589958071955031430042871998242759445929550565779209136962890625int < 0xd226fc195c6a2f8c73832eec6fff3112int * 0x2000000000000000000000000000000000000000000000000000000000000000000000000000000000000000000000000000000000000000000000000000000000000000int);
    } else if q == 289 {
        assert(entry_value(289) == 0x83585d8fd9c25db7c831fd53c5ff7eabint);
        assert(table_exponent(289) == -544);
        assert(0x83585d8fd9c25db7c831fd53c5ff7eabint * 0x10000000000000000000000000000000000000000000000000000000000000000000000000000000000000000000000000000000000000000000000000000000000000000int <= 10053823416929743980740140963811892516813241369598872709348452591999191561670074074030280466508455838263671954565390087194967897314149824312949790359775157150214359991213797229647752828896045684814453125int && 10053823416929743980740140963811892516813241369598872709348452591999191561670074074030280466508455838263671954565390087194967897314149824312949790359775157150214359991213797229647752828896045684814453125int < 0x83585d8fd9c25db7c831fd53c5ff7eacint * 0x10000000000000000000000000000000000000000000000000000000000000000000000000000000000000000000000000000000000000000000000000000000000000000int);
    } else if q == 290 {
        assert(entry_value(290) == 0xa42e74f3d032f525ba3e7ca8b77f5e55int);
        assert(table_exponent(290) == -546);
        assert(0xa42e74f3d032f525ba3e7ca8b77f5e55int * 0x40000000000000000000000000000000000000000000000000000000000000000000000000000000000000000000000000000000000000000000000000000000000000000int <= 50269117084648719903700704819059462584066206847994363546742262959995957808350370370151402332542279191318359772826950435974839486570749121564748951798875785751071799956068986148238764144480228424072265625int && 50269117084648719903700704819059462584066206847994363546742262959995957808350370370151402332542279191318359772826950435974839486570749121564748951798875785751071799956068986148238764144480228424072265625int < 0xa42e74f3d032f525ba3e7ca8b77f5e56int * 0x40000000000000000000000000000000000000000000000000000000000000000000000000000000000000000000000000000000000000000000000000000000000000000int);
    } else if q == 291 {
        assert(entry_value(291) == 0xcd3a1230c43fb26f28ce1bd2e55f35ebint);
        assert(table_exponent(291) == -548);
        assert(0xcd3a1230c43fb26f28ce1bd2e55f35ebint * 0x100000000000000000000000000000000000000000000000000000000000000000000000000000000000000000000000000000000000000000000000000000000000000000int <= 251345585423243599518503524095297312920331034239971817733711314799979789041751851850757011662711395956591798864134752179874197432853745607823744758994378928755358999780344930741193820722401142120361328125int && 251345585423243599518503524095297312920331034239971817733711314799979789041751851850757011662711395956591798864134752179874197432853745607823744758994378928755358999780344930741193820722401142120361328125int < 0xcd3a1230c43fb26f28ce1bd2e55f35ecint * 0x100000000000000000000000000000000000000000000000000000000000000000000000000000000000000000000000000000000000000000000000000000000000000000int);
    } else if q == 292 {
        assert(entry_value(292) == 0x80444b5e7aa7cf857980d163cf5b81b3int);
        assert(table_exponent(292) == -551);
        assert(0x80444b5e7aa7cf857980d163cf5b81b3int * 0x800000000000000000000000000000000000000000000000000000000000000000000000000000000000000000000000000000000000000000000000000000000000000000int <= 1256727927116217997592517620476486564601655171199859088668556573999898945208759259253785058313556979782958994320673760899370987164268728039118723794971894643776794998901724653705969103612005710601806640625int && 1256727927116217997592517620476486564601655171199859088668556573999898945208759259253785058313556979782958994320673760899370987164268728039118723794971894643776794998901724653705969103612005710601806640625int < 0x80444b5e7aa7cf857980d163cf5b81b4int * 0x800000000000000000000000000000000000000000000000000000000000000000000000000000000000000000000000000000000000000000000000000000000000000000int);
    } else if q == 293 {
        assert(entry_value(293) == 0xa0555e361951c366d7e105bcc332621fint);
        assert(table_exponent(293) == -553);
        assert(0xa0555e361951c366d7e105bcc332621fint * 0x2000000000000000000000000000000000000000000000000000000000000000000000000000000000000000000000000000000000000000000000000000000000000000000int <= 6283639635581089987962588102382432823008275855999295443342782869999494726043796296268925291567784898914794971603368804496854935821343640195593618974859473218883974994508623268529845518060028553009033203125int && 6283639635581089987962588102382432823008275855999295443342782869999494726043796296268925291567784898914794971603368804496854935821343640195593618974859473218883974994508623268529845518060028553009033203125int < 0xa0555e361951c366d7e105bcc3326220int * 0x2000000000000000000000000000000000000000000000000000000000000000000000000000000000000000000000000000000000000000000000000000000000000000000int);
    } else if q == 294 {
        assert(entry_value(294) == 0xc86ab5c39fa634408dd9472bf3fefaa7int);
        assert(table_exponent(294) == -555);
        assert(0xc86ab5c39fa634408dd9472bf3fefaa7int * 0x8000000000000000000000000000000000000000000000000000000000000000000000000000000000000000000000000000000000000000000000000000000000000000000int <= 31418198177905449939812940511912164115041379279996477216713914349997473630218981481344626457838924494573974858016844022484274679106718200977968094874297366094419874972543116342649227590300142765045166015625int && 31418198177905449939812940511912164115041379279996477216713914349997473630218981481344626457838924494573974858016844022484274679106718200977968094874297366094419874972543116342649227590300142765045166015625int < 0xc86ab5c39fa634408dd9472bf3fefaa8int * 0x8000000000000000000000000000000000000000000000000000000000000000000000000000000000000000000000000000000000000000000000000000000000000000000int);
    } else if q == 295 {
        assert(entry_value(295) == 0xfa856334878fc150b14f98f6f0feb951int);
        assert(table_exponent(295) == -557);
        assert(0xfa856334878fc150b14f98f6f0feb951int * 0x20000000000000000000000000000000000000000000000000000000000000000000000000000000000000000000000000000000000000000000000000000000000000000000int <= 157090990889527249699064702559560820575206896399982386083569571749987368151094907406723132289194622472869874290084220112421373395533591004889840474371486830472099374862715581713246137951500713825225830078125int && 157090990889527249699064702559560820575206896399982386083569571749987368151094907406723132289194622472869874290084220112421373395533591004889840474371486830472099374862715581713246137951500713825225830078125int < 0xfa856334878fc150b14f98f6f0feb952int * 0x20000000000000000000000000000000000000000000000000000000000000000000000000000000000000000000000000000000000000000000000000000000000000000000int);
    } else if q == 296 {
        assert(entry_value(296) == 0x9c935e00d4b9d8d26ed1bf9a569f33d3int);
        assert(table_exponent(296) == -560);
        assert(0x9c935e00d4b9d8d26ed1bf9a569f33d3int * 0x100000000000000000000000000000000000000000000000000000000000000000000000000000000000000000000000000000000000000000000000000000000000000000000int <= 785454954447636248495323512797804102876034481999911930417847858749936840755474537033615661445973112364349371450421100562106866977667955024449202371857434152360496874313577908566230689757503569126129150390625int && 785454954447636248495323512797804102876034481999911930417847858749936840755474537033615661445973112364349371450421100562106866977667955024449202371857434152360496874313577908566230689757503569126129150390625int < 0x9c935e00d4b9d8d26ed1bf9a569f33d4int * 0x100000000000000000000000000000000000000000000000000000000000000000000000000000000000000000000000000000000000000000000000000000000000000000000int);
    } else if q == 297 {
        assert(entry_value(297) == 0xc3b8358109e84f070a862f80ec4700c8int);
        assert(table_exponent(297) == -562);
        assert(0xc3b8358109e84f070a862f80ec4700c8int * 0x400000000000000000000000000000000000000000000000000000000000000000000000000000000000000000000000000000000000000000000000000000000000000000000int <= 3927274772238181242476617563989020514380172409999559652089239293749684203777372685168078307229865561821746857252105502810534334888339775122246011859287170761802484371567889542831153448787517845630645751953125int && 3927274772238181242476617563989020514380172409999559652089239293749684203777372685168078307229865561821746857252105502810534334888339775122246011859287170761802484371567889542831153448787517845630645751953125int < 0xc3b8358109e84f070a862f80ec4700c9int * 0x400000000000000000000000000000000000000000000000000000000000000000000000000000000000000000000000000000000000000000000000000000000000000000000int);
    } else if q == 298 {
        assert(entry_value(298) == 0xf4a642e14c6262c8cd27bb612758c0faint);
        assert(table_exponent(298) == -564);
        assert(0xf4a642e14c6262c8cd27bb612758c0faint * 0x1000000000000000000000000000000000000000000000000000000000000000000000000000000000000000000000000000000000000000000000000000000000000000000000int <= 19636373861190906212383087819945102571900862049997798260446196468748421018886863425840391536149327809108734286260527514052671674441698875611230059296435853809012421857839447714155767243937589228153228759765625int && 19636373861190906212383087819945102571900862049997798260446196468748421018886863425840391536149327809108734286260527514052671674441698875611230059296435853809012421857839447714155767243937589228153228759765625int < 0xf4a642e14c6262c8cd27bb612758c0fbint * 0x1000000000000000000000000000000000000000000000000000000000000000000000000000000000000000000000000000000000000000000000000000000000000000000000int);
    } else if q == 299 {
        assert(entry_value(299) == 0x98e7e9cccfbd7dbd8038d51cb897789cint);
        assert(table_exponent(299) == -567);
        assert(0x98e7e9cccfbd7dbd8038d51cb897789cint * 0x8000000000000000000000000000000000000000000000000000000000000000000000000000000000000000000000000000000000000000000000000000000000000000000000int <= 98181869305954531061915439099725512859504310249988991302230982343742105094434317129201957680746639045543671431302637570263358372208494378056150296482179269045062109289197238570778836219687946140766143798828125int && 98181869305954531061915439099725512859504310249988991302230982343742105094434317129201957680746639045543671431302637570263358372208494378056150296482179269045062109289197238570778836219687946140766143798828125int < 0x98e7e9cccfbd7dbd8038d51cb897789dint * 0x8000000000000000000000000000000000000000000000000000000000000000000000000000000000000000000000000000000000000000000000000000000000000000000000int);
    } else if q == 300 {
        assert(entry_value(300) == 0xbf21e44003acdd2ce0470a63e6bd56c3int);
        assert(table_exponent(300) == -569);
        assert(0xbf21e44003acdd2ce0470a63e6bd56c3int * 0x20000000000000000000000000000000000000000000000000000000000000000000000000000000000000000000000000000000000000000000000000000000000000000000000int <= 490909346529772655309577195498627564297521551249944956511154911718710525472171585646009788403733195227718357156513187851316791861042471890280751482410896345225310546445986192853894181098439730703830718994140625int && 490909346529772655309577195498627564297521551249944956511154911718710525472171585646009788403733195227718357156513187851316791861042471890280751482410896345225310546445986192853894181098439730703830718994140625int < 0xbf21e44003acdd2ce0470a63e6bd56c4int * 0x20000000000000000000000000000000000000000000000000000000000000000000000000000000000000000000000000000000000000000000000000000000000000000000000int);
    } else if q == 301 {
        assert(entry_value(301) == 0xeeea5d50049814781858ccfce06cac74int);
        assert(table_exponent(301) == -571);
        assert(0xeeea5d50049814781858ccfce06cac74int * 0x80000000000000000000000000000000000000000000000000000000000000000000000000000000000000000000000000000000000000000000000000000000000000000000000int <= 2454546732648863276547885977493137821487607756249724782555774558593552627360857928230048942018665976138591785782565939256583959305212359451403757412054481726126552732229930964269470905492198653519153594970703125int && 2454546732648863276547885977493137821487607756249724782555774558593552627360857928230048942018665976138591785782565939256583959305212359451403757412054481726126552732229930964269470905492198653519153594970703125int < 0xeeea5d50049814781858ccfce06cac75int * 0x80000000000000000000000000000000000000000000000000000000000000000000000000000000000000000000000000000000000000000000000000000000000000000000000int);
    } else if q == 302 {
        assert(entry_value(302) == 0x95527a5202df0ccb0f37801e0c43ebc8int);
        assert(table_exponent(302) == -574);
        assert(0x95527a5202df0ccb0f37801e0c43ebc8int * 0x400000000000000000000000000000000000000000000000000000000000000000000000000000000000000000000000000000000000000000000000000000000000000000000000int <= 12272733663244316382739429887465689107438038781248623912778872792967763136804289641150244710093329880692958928912829696282919796526061797257018787060272408630632763661149654821347354527460993267595767974853515625int && 12272733663244316382739429887465689107438038781248623912778872792967763136804289641150244710093329880692958928912829696282919796526061797257018787060272408630632763661149654821347354527460993267595767974853515625int < 0x95527a5202df0ccb0f37801e0c43ebc9int * 0x400000000000000000000000000000000000000000000000000000000000000000000000000000000000000000000000000000000000000000000000000000000000000000000000int);
    } else if q == 303 {
        assert(entry_value(303) == 0xbaa718e68396cffdd30560258f54e6baint);
        assert(table_exponent(303) == -576);
        assert(0xbaa718e68396cffdd30560258f54e6baint * 0x1000000000000000000000000000000000000000000000000000000000000000000000000000000000000000000000000000000000000000000000000000000000000000000000000int <= 61363668316221581913697149437328445537190193906243119563894363964838815684021448205751223550466649403464794644564148481414598982630308986285093935301362043153163818305748274106736772637304966337978839874267578125int && 61363668316221581913697149437328445537190193906243119563894363964838815684021448205751223550466649403464794644564148481414598982630308986285093935301362043153163818305748274106736772637304966337978839874267578125int < 0xbaa718e68396cffdd30560258f54e6bbint * 0x1000000000000000000000000000000000000000000000000000000000000000000000000000000000000000000000000000000000000000000000000000000000000000000000000int);
    } else if q == 304 {
        assert(entry_value(304) == 0xe950df20247c83fd47c6b82ef32a2069int);
        assert(table_exponent(304) == -578);
        assert(0xe950df20247c83fd47c6b82ef32a2069int * 0x4000000000000000000000000000000000000000000000000000000000000000000000000000000000000000000000000000000000000000000000000000000000000000000000000int <= 306818341581107909568485747186642227685950969531215597819471819824194078420107241028756117752333247017323973222820742407072994913151544931425469676506810215765819091528741370533683863186524831689894199371337890625int && 306818341581107909568485747186642227685950969531215597819471819824194078420107241028756117752333247017323973222820742407072994913151544931425469676506810215765819091528741370533683863186524831689894199371337890625int < 0xe950df20247c83fd47c6b82ef32a206aint * 0x4000000000000000000000000000000000000000000000000000000000000000000000000000000000000000000000000000000000000000000000000000000000000000000000000int);
    } else if q == 305 {
        assert(entry_value(305) == 0x91d28b7416cdd27e4cdc331d57fa5441int);
        assert(table_exponent(305) == -581);
        assert(0x91d28b7416cdd27e4cdc331d57fa5441int * 0x20000000000000000000000000000000000000000000000000000000000000000000000000000000000000000000000000000000000000000000000000000000000000000000000000int <= 1534091707905539547842428735933211138429754847656077989097359099120970392100536205143780588761666235086619866114103712035364974565757724657127348382534051078829095457643706852668419315932624158449470996856689453125int && 1534091707905539547842428735933211138429754847656077989097359099120970392100536205143780588761666235086619866114103712035364974565757724657127348382534051078829095457643706852668419315932624158449470996856689453125int < 0x91d28b7416cdd27e4cdc331d57fa5442int * 0x20000000000000000000000000000000000000000000000000000000000000000000000000000000000000000000000000000000000000000000000000000000000000000000000000int);
    } else if q == 306 {
        assert(entry_value(306) == 0xb6472e511c81471de0133fe4adf8e952int);
        assert(table_exponent(306) == -583);
        assert(0xb6472e511c81471de0133fe4adf8e952int * 0x80000000000000000000000000000000000000000000000000000000000000000000000000000000000000000000000000000000000000000000000000000000000000000000000000int <= 7670458539527697739212143679666055692148774238280389945486795495604851960502681025718902943808331175433099330570518560176824872828788623285636741912670255394145477288218534263342096579663120792247354984283447265625int && 7670458539527697739212143679666055692148774238280389945486795495604851960502681025718902943808331175433099330570518560176824872828788623285636741912670255394145477288218534263342096579663120792247354984283447265625int < 0xb6472e511c81471de0133fe4adf8e953int * 0x80000000000000000000000000000000000000000000000000000000000000000000000000000000000000000000000000000000000000000000000000000000000000000000000000int);
    } else if q == 307 {
        assert(entry_value(307) == 0xe3d8f9e563a198e558180fddd97723a6int);
        assert(table_exponent(307) == -585);
        assert(0xe3d8f9e563a198e558180fddd97723a6int * 0x200000000000000000000000000000000000000000000000000000000000000000000000000000000000000000000000000000000000000000000000000000000000000000000000000int <= 38352292697638488696060718398330278460743871191401949727433977478024259802513405128594514719041655877165496652852592800884124364143943116428183709563351276970727386441092671316710482898315603961236774921417236328125int && 38352292697638488696060718398330278460743871191401949727433977478024259802513405128594514719041655877165496652852592800884124364143943116428183709563351276970727386441092671316710482898315603961236774921417236328125int < 0xe3d8f9e563a198e558180fddd97723a7int * 0x200000000000000000000000000000000000000000000000000000000000000000000000000000000000000000000000000000000000000000000000000000000000000000000000000int);
    } else if q == 308 {
        assert(entry_value(308) == 0x8e679c2f5e44ff8f570f09eaa7ea7648int);
        assert(table_exponent(308) == -588);
        assert(0x8e679c2f5e44ff8f570f09eaa7ea7648int * 0x1000000000000000000000000000000000000000000000000000000000000000000000000000000000000000000000000000000000000000000000000000000000000000000000000000int <= 191761463488192443480303591991651392303719355957009748637169887390121299012567025642972573595208279385827483264262964004420621820719715582140918547816756384853636932205463356583552414491578019806183874607086181640625int && 191761463488192443480303591991651392303719355957009748637169887390121299012567025642972573595208279385827483264262964004420621820719715582140918547816756384853636932205463356583552414491578019806183874607086181640625int < 0x8e679c2f5e44ff8f570f09eaa7ea7649int * 0x1000000000000000000000000000000000000000000000000000000000000000000000000000000000000000000000000000000000000000000000000000000000000000000000000000int);
    }
}

/// The entries for the reciprocals of `5^1` to `5^27`: the lower word is not
/// zero, and the upper word is no multiple of 16.
pub proof fn lemma_reciprocal_entry(q: int)
    requires
        -27 <= q <= -1,
    ensures
        power_of_five_128(q).1 >= 1,
        power_of_five_128(q).0 % 16 != 0,
{
    if q == -27 {
        assert(power_of_five_128(-27) == (0x9e74d1b791e07e48u64, 0x775ea264cf55347eu64));
    } else if q == -26 {
        assert(power_of_five_128(-26) == (0xc612062576589ddau64, 0x95364afe032a819eu64));
    } else if q == -25 {
        assert(power_of_five_128(-25) == (0xf79687aed3eec551u64, 0x3a83ddbd83f52205u64));
    } else if q == -24 {
        assert(power_of_five_128(-24) == (0x9abe14cd44753b52u64, 0xc4926a9672793543u64));
    } else if q == -23 {
        assert(power_of_five_128(-23) == (0xc16d9a0095928a27u64, 0x75b7053c0f178294u64));
    } else if q == -22 {
        assert(power_of_five_128(-22) == (0xf1c90080baf72cb1u64, 0x5324c68b12dd6339u64));
    } else if q == -21 {
        assert(power_of_five_128(-21) == (0x971da05074da7beeu64, 0xd3f6fc16ebca5e04u64));
    } else if q == -20 {
        assert(power_of_five_128(-20) == (0xbce5086492111aeau64, 0x88f4bb1ca6bcf585u64));
    } else if q == -19 {
        assert(power_of_five_128(-19) == (0xec1e4a7db69561a5u64, 0x2b31e9e3d06c32e6u64));
    } else if q == -18 {
        assert(power_of_five_128(-18) == (0x9392ee8e921d5d07u64, 0x3aff322e62439fd0u64));
    } else if q == -17 {
        assert(power_of_five_128(-17) == (0xb877aa3236a4b449u64, 0x9befeb9fad487c3u64));
    } else if q == -16 {
        assert(power_of_five_128(-16) == (0xe69594bec44de15bu64, 0x4c2ebe687989a9b4u64));
    } else if q == -15 {
        assert(power_of_five_128(-15) == (0x901d7cf73ab0acd9u64, 0xf9d37014bf60a11u64));
    } else if q == -14 {
        assert(power_of_five_128(-14) == (0xb424dc35095cd80fu64, 0x538484c19ef38c95u64));
    } else if q == -13 {
        assert(power_of_five_128(-13) == (0xe12e13424bb40e13u64, 0x2865a5f206b06fbau64));
    } else if q == -12 {
        assert(power_of_five_128(-12) == (0x8cbccc096f5088cbu64, 0xf93f87b7442e45d4u64));
    } else if q == -11 {
        assert(power_of_five_128(-11) == (0xafebff0bcb24aafeu64, 0xf78f69a51539d749u64));
    } else if q == -10 {
        assert(power_of_five_128(-10) == (0xdbe6fecebdedd5beu64, 0xb573440e5a884d1cu64));
    } else if q == -9 {
        assert(power_of_five_128(-9) == (0x89705f4136b4a597u64, 0x31680a88f8953031u64));
    } else if q == -8 {
        assert(power_of_five_128(-8) == (0xabcc77118461cefcu64, 0xfdc20d2b36ba7c3eu64));
    } else if q == -7 {
        assert(power_of_five_128(-7) == (0xd6bf94d5e57a42bcu64, 0x3d32907604691b4du64));
    } else if q == -6 {
        assert(power_of_five_128(-6) == (0x8637bd05af6c69b5u64, 0xa63f9a49c2c1b110u64));
    } else if q == -5 {
        assert(power_of_five_128(-5) == (0xa7c5ac471b478423u64, 0xfcf80dc33721d54u64));
    } else if q == -4 {
        assert(power_of_five_128(-4) == (0xd1b71758e219652bu64, 0xd3c36113404ea4a9u64));
    } else if q == -3 {
        assert(power_of_five_128(-3) == (0x83126e978d4fdf3bu64, 0x645a1cac083126eau64));
    } else if q == -2 {
        assert(power_of_five_128(-2) == (0xa3d70a3d70a3d70au64, 0x3d70a3d70a3d70a4u64));
    } else if q == -1 {
        assert(power_of_five_128(-1) == (0xccccccccccccccccu64, 0xcccccccccccccccdu64));
    }
}

/// A word whose product with the upper word of the entry for the
/// reciprocal of `5^1` to `5^27` has a lower half of one: the upper half of
/// that product is no multiple of 512.
pub proof fn lemma_no_false_tie(q: int, word: nat)
    requires
        -27 <= q <= -1,
        pow2(63) <= word < pow2(64),
        (word * power_of_five_128(q).0 as nat) % pow2(64) == 1,
    ensures
        ((word * power_of_five_128(q).0 as nat) / pow2(64)) % 512 != 0,
{
    lemma2_to64();
    vstd::arithmetic::power2::lemma2_to64_rest();
    let upper = power_of_five_128(q).0 as nat;
    let product = word * upper;
    if q == -27 {
        assert(upper == 0x9e74d1b791e07e48);
        assert(product == 2 * (word * 0x4f3a68dbc8f03f24)) by (nonlinear_arith)
            requires
                product == word * 0x9e74d1b791e07e48,
        ;
        assert(product % 0x1_0000_0000_0000_0000 == 1);
        assert(false);
    } else if q == -26 {
        assert(upper == 0xc612062576589dda);
        assert(product == 2 * (word * 0x63090312bb2c4eed)) by (nonlinear_arith)
            requires
                product == word * 0xc612062576589dda,
        ;
        assert(product % 0x1_0000_0000_0000_0000 == 1);
        assert(false);
    } else if q == -25 {
        assert(upper == 0xf79687aed3eec551);
        assert((0x9d2250f9d617a3b1nat * 0xf79687aed3eec551nat) % 0x1_0000_0000_0000_0000 == 1);
        crate::dec2flt::arith::lemma_inverse_unique(upper, word, 0x9d2250f9d617a3b1, 64);
        assert(((0x9d2250f9d617a3b1nat * 0xf79687aed3eec551nat) / 0x1_0000_0000_0000_0000) % 512 != 0);
    } else if q == -24 {
        assert(upper == 0x9abe14cd44753b52);
        assert(product == 2 * (word * 0x4d5f0a66a23a9da9)) by (nonlinear_arith)
            requires
                product == word * 0x9abe14cd44753b52,
        ;
        assert(product % 0x1_0000_0000_0000_0000 == 1);
        assert(false);
    } else if q == -23 {
        assert(upper == 0xc16d9a0095928a27);
        assert((0x55060aa4b68c4597nat * 0xc16d9a0095928a27nat) % 0x1_0000_0000_0000_0000 == 1);
        crate::dec2flt::arith::lemma_inverse_unique(upper, word, 0x55060aa4b68c4597, 64);
    } else if q == -22 {
        assert(upper == 0xf1c90080baf72cb1);
        assert((0xabd8cf0093f9c51nat * 0xf1c90080baf72cb1nat) % 0x1_0000_0000_0000_0000 == 1);
        crate::dec2flt::arith::lemma_inverse_unique(upper, word, 0xabd8cf0093f9c51, 64);
    } else if q == -21 {
        assert(upper == 0x971da05074da7bee);
        assert(product == 2 * (word * 0x4b8ed0283a6d3df7)) by (nonlinear_arith)
            requires
                product == word * 0x971da05074da7bee,
        ;
        assert(product % 0x1_0000_0000_0000_0000 == 1);
        assert(false);
    } else if q == -20 {
        assert(upper == 0xbce5086492111aea);
        assert(product == 2 * (word * 0x5e72843249088d75)) by (nonlinear_arith)
            requires
                product == word * 0xbce5086492111aea,
        ;
        assert(product % 0x1_0000_0000_0000_0000 == 1);
        assert(false);
    } else if q == -19 {
        assert(upper == 0xec1e4a7db69561a5);
        assert((0xb041aef332729e2dnat * 0xec1e4a7db69561a5nat) % 0x1_0000_0000_0000_0000 == 1);
        crate::dec2flt::arith::lemma_inverse_unique(upper, word, 0xb041aef332729e2d, 64);
        assert(((0xb041aef332729e2dnat * 0xec1e4a7db69561a5nat) / 0x1_0000_0000_0000_0000) % 512 != 0);
    } else if q == -18 {
        assert(upper == 0x9392ee8e921d5d07);
        assert((0x82832df8cc980b7nat * 0x9392ee8e921d5d07nat) % 0x1_0000_0000_0000_0000 == 1);
        crate::dec2flt::arith::lemma_inverse_unique(upper, word, 0x82832df8cc980b7, 64);
    } else if q == -17 {
        assert(upper == 0xb877aa3236a4b449);
        assert((0x89ee897ef59d7df9nat * 0xb877aa3236a4b449nat) % 0x1_0000_0000_0000_0000 == 1);
        crate::dec2flt::arith::lemma_inverse_unique(upper, word, 0x89ee897ef59d7df9, 64);
        assert(((0x89ee897ef59d7df9nat * 0xb877aa3236a4b449nat) / 0x1_0000_0000_0000_0000) % 512 != 0);
    } else if q == -16 {
        assert(upper == 0xe69594bec44de15b);
        assert((0x30fad280461f66d3nat * 0xe69594bec44de15bnat) % 0x1_0000_0000_0000_0000 == 1);
        crate::dec2flt::arith::lemma_inverse_unique(upper, word, 0x30fad280461f66d3, 64);
    } else if q == -15 {
        assert(upper == 0x901d7cf73ab0acd9);
        assert((0xb7d434f9093d1369nat * 0x901d7cf73ab0acd9nat) % 0x1_0000_0000_0000_0000 == 1);
        crate::dec2flt::arith::lemma_inverse_unique(upper, word, 0xb7d434f9093d1369, 64);
        assert(((0xb7d434f9093d1369nat * 0x901d7cf73ab0acd9nat) / 0x1_0000_0000_0000_0000) % 512 != 0);
    } else if q == -14 {
        assert(upper == 0xb424dc35095cd80f);
        assert((0x4776114e932f16efnat * 0xb424dc35095cd80fnat) % 0x1_0000_0000_0000_0000 == 1);
        crate::dec2flt::arith::lemma_inverse_unique(upper, word, 0x4776114e932f16ef, 64);
    } else if q == -13 {
        assert(upper == 0xe12e13424bb40e13);
        assert((0xa976a8f009f3ec1bnat * 0xe12e13424bb40e13nat) % 0x1_0000_0000_0000_0000 == 1);
        crate::dec2flt::arith::lemma_inverse_unique(upper, word, 0xa976a8f009f3ec1b, 64);
        assert(((0xa976a8f009f3ec1bnat * 0xe12e13424bb40e13nat) / 0x1_0000_0000_0000_0000) % 512 != 0);
    } else if q == -12 {
        assert(upper == 0x8cbccc096f5088cb);
        assert((0xccda17e7d0519ce3nat * 0x8cbccc096f5088cbnat) % 0x1_0000_0000_0000_0000 == 1);
        crate::dec2flt::arith::lemma_inverse_unique(upper, word, 0xccda17e7d0519ce3, 64);
        assert(((0xccda17e7d0519ce3nat * 0x8cbccc096f5088cbnat) / 0x1_0000_0000_0000_0000) % 512 != 0);
    } else if q == -11 {
        assert(upper == 0xafebff0bcb24aafe);
        assert(product == 2 * (word * 0x57f5ff85e592557f)) by (nonlinear_arith)
            requires
                product == word * 0xafebff0bcb24aafe,
        ;
        assert(product % 0x1_0000_0000_0000_0000 == 1);
        assert(false);
    } else if q == -10 {
        assert(upper == 0xdbe6fecebdedd5be);
        assert(product == 2 * (word * 0x6df37f675ef6eadf)) by (nonlinear_arith)
            requires
                product == word * 0xdbe6fecebdedd5be,
        ;
        assert(product % 0x1_0000_0000_0000_0000 == 1);
        assert(false);
    } else if q == -9 {
        assert(upper == 0x89705f4136b4a597);
        assert((0x47a5ffb53d302a27nat * 0x89705f4136b4a597nat) % 0x1_0000_0000_0000_0000 == 1);
        crate::dec2flt::arith::lemma_inverse_unique(upper, word, 0x47a5ffb53d302a27, 64);
    } else if q == -8 {
        assert(upper == 0xabcc77118461cefc);
        assert(product == 2 * (word * 0x55e63b88c230e77e)) by (nonlinear_arith)
            requires
                product == word * 0xabcc77118461cefc,
        ;
        assert(product % 0x1_0000_0000_0000_0000 == 1);
        assert(false);
    } else if q == -7 {
        assert(upper == 0xd6bf94d5e57a42bc);
        assert(product == 2 * (word * 0x6b5fca6af2bd215e)) by (nonlinear_arith)
            requires
                product == word * 0xd6bf94d5e57a42bc,
        ;
        assert(product % 0x1_0000_0000_0000_0000 == 1);
        assert(false);
    } else if q == -6 {
        assert(upper == 0x8637bd05af6c69b5);
        assert((0x2d28ff519dc1fc9dnat * 0x8637bd05af6c69b5nat) % 0x1_0000_0000_0000_0000 == 1);
        crate::dec2flt::arith::lemma_inverse_unique(upper, word, 0x2d28ff519dc1fc9d, 64);
    } else if q == -5 {
        assert(upper == 0xa7c5ac471b478423);
        assert((0xb464ceec1a874b8bnat * 0xa7c5ac471b478423nat) % 0x1_0000_0000_0000_0000 == 1);
        crate::dec2flt::arith::lemma_inverse_unique(upper, word, 0xb464ceec1a874b8b, 64);
        assert(((0xb464ceec1a874b8bnat * 0xa7c5ac471b478423nat) / 0x1_0000_0000_0000_0000) % 512 != 0);
    } else if q == -4 {
        assert(upper == 0xd1b71758e219652b);
        assert((0x6978533007ec3183nat * 0xd1b71758e219652bnat) % 0x1_0000_0000_0000_0000 == 1);
        crate::dec2flt::arith::lemma_inverse_unique(upper, word, 0x6978533007ec3183, 64);
    } else if q == -3 {
        assert(upper == 0x83126e978d4fdf3b);
        assert((0xc687d6343eb1a1f3nat * 0x83126e978d4fdf3bnat) % 0x1_0000_0000_0000_0000 == 1);
        crate::dec2flt::arith::lemma_inverse_unique(upper, word, 0xc687d6343eb1a1f3, 64);
        assert(((0xc687d6343eb1a1f3nat * 0x83126e978d4fdf3bnat) / 0x1_0000_0000_0000_0000) % 512 != 0);
    } else if q == -2 {
        assert(upper == 0xa3d70a3d70a3d70a);
        assert(product == 2 * (word * 0x51eb851eb851eb85)) by (nonlinear_arith)
            requires
                product == word * 0xa3d70a3d70a3d70a,
        ;
        assert(product % 0x1_0000_0000_0000_0000 == 1);
        assert(false);
    } else if q == -1 {
        assert(upper == 0xcccccccccccccccc);
        assert(product == 2 * (word * 0x6666666666666666)) by (nonlinear_arith)
            requires
                product == word * 0xcccccccccccccccc,
        ;
        assert(product % 0x1_0000_0000_0000_0000 == 1);
        assert(false);
    }
}

/// Every entry of the table is what [`approximates`] says.
pub proof fn lemma_power_table(q: int)
    requires
        SMALLEST_POWER_OF_FIVE <= q <= LARGEST_POWER_OF_FIVE,
    ensures
        approximates(q),
{
    if q <= -313 {
        lemma_entries_0(q);
    } else if q <= -283 {
        lemma_entries_1(q);
    } else if q <= -253 {
        lemma_entries_2(q);
    } else if q <= -223 {
        lemma_entries_3(q);
    } else if q <= -193 {
        lemma_entries_4(q);
    } else if q <= -163 {
        lemma_entries_5(q);
    } else if q <= -133 {
        lemma_entries_6(q);
    } else if q <= -103 {
        lemma_entries_7(q);
    } else if q <= -73 {
        lemma_entries_8(q);
    } else if q <= -43 {
        lemma_entries_9(q);
    } else if q <= -13 {
        lemma_entries_10(q);
    } else if q <= 17 {
        lemma_entries_11(q);
    } else if q <= 47 {
        lemma_entries_12(q);
    } else if q <= 77 {
        lemma_entries_13(q);
    } else if q <= 107 {
        lemma_entries_14(q);
    } else if q <= 137 {
        lemma_entries_15(q);
    } else if q <= 167 {
        lemma_entries_16(q);
    } else if q <= 197 {
        lemma_entries_17(q);
    } else if q <= 227 {
        lemma_entries_18(q);
    } else if q <= 257 {
        lemma_entries_19(q);
    } else if q <= 287 {
        lemma_entries_20(q);
    } else if q <= 308 {
        lemma_entries_21(q);
    }
}

} // verus!
