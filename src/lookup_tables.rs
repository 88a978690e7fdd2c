//! Precomputed waveform tables shared by the oscillator and the envelope generator.
//!
//! The sine table holds one full cycle, `sin(2 pi i / 512)`, in signed fixed point where
//! `1 << 31` stands for 1.0 (the single positive peak is held at `i32::MAX`).
//!
//! The envelope curves are RC charge and discharge shapes in unsigned fixed point where
//! `u32::MAX` stands for 1.0: the attack curve rises from 0 to full scale, the decay
//! curve falls from full scale to 0.

use vstd::prelude::*;

verus! {

/// The number of entries in the sine table, a power of two.
pub const SINE_LUT_SIZE: usize = 512;

/// The number of entries in each envelope curve table, a power of two.
pub const ADSR_CURVE_LUT_SIZE: usize = 256;

/// One cycle of a sine wave, scaled so that `1 << 31` is 1.0.
pub const SINE_TABLE: [i32; 512] = [
    0, 26352928, 52701887, 79042909, 105372028, 131685278,
    157978697, 184248325, 210490206, 236700388, 262874923, 289009871,
    315101295, 341145265, 367137861, 393075166, 418953276, 444768294,
    470516330, 496193509, 521795963, 547319836, 572761285, 598116479,
    623381598, 648552838, 673626408, 698598533, 723465451, 748223418,
    772868706, 797397602, 821806413, 846091463, 870249095, 894275671,
    918167572, 941921200, 965532978, 988999351, 1012316784, 1035481766,
    1058490808, 1081340445, 1104027237, 1126547765, 1148898640, 1171076495,
    1193077991, 1214899813, 1236538675, 1257991320, 1279254516, 1300325060,
    1321199781, 1341875533, 1362349204, 1382617710, 1402678000, 1422527051,
    1442161874, 1461579514, 1480777044, 1499751576, 1518500250, 1537020244,
    1555308768, 1573363068, 1591180426, 1608758157, 1626093616, 1643184191,
    1660027308, 1676620432, 1692961062, 1709046739, 1724875040, 1740443581,
    1755750017, 1770792044, 1785567396, 1800073849, 1814309216, 1828271356,
    1841958164, 1855367581, 1868497586, 1881346202, 1893911494, 1906191570,
    1918184581, 1929888720, 1941302225, 1952423377, 1963250501, 1973781967,
    1984016189, 1993951625, 2003586779, 2012920201, 2021950484, 2030676269,
    2039096241, 2047209133, 2055013723, 2062508835, 2069693342, 2076566160,
    2083126254, 2089372638, 2095304370, 2100920556, 2106220352, 2111202959,
    2115867626, 2120213651, 2124240380, 2127947206, 2131333572, 2134398966,
    2137142927, 2139565043, 2141664948, 2143442326, 2144896910, 2146028480,
    2146836866, 2147321946, 2147483647, 2147321946, 2146836866, 2146028480,
    2144896910, 2143442326, 2141664948, 2139565043, 2137142927, 2134398966,
    2131333572, 2127947206, 2124240380, 2120213651, 2115867626, 2111202959,
    2106220352, 2100920556, 2095304370, 2089372638, 2083126254, 2076566160,
    2069693342, 2062508835, 2055013723, 2047209133, 2039096241, 2030676269,
    2021950484, 2012920201, 2003586779, 1993951625, 1984016189, 1973781967,
    1963250501, 1952423377, 1941302225, 1929888720, 1918184581, 1906191570,
    1893911494, 1881346202, 1868497586, 1855367581, 1841958164, 1828271356,
    1814309216, 1800073849, 1785567396, 1770792044, 1755750017, 1740443581,
    1724875040, 1709046739, 1692961062, 1676620432, 1660027308, 1643184191,
    1626093616, 1608758157, 1591180426, 1573363068, 1555308768, 1537020244,
    1518500250, 1499751576, 1480777044, 1461579514, 1442161874, 1422527051,
    1402678000, 1382617710, 1362349204, 1341875533, 1321199781, 1300325060,
    1279254516, 1257991320, 1236538675, 1214899813, 1193077991, 1171076495,
    1148898640, 1126547765, 1104027237, 1081340445, 1058490808, 1035481766,
    1012316784, 988999351, 965532978, 941921200, 918167572, 894275671,
    870249095, 846091463, 821806413, 797397602, 772868706, 748223418,
    723465451, 698598533, 673626408, 648552838, 623381598, 598116479,
    572761285, 547319836, 521795963, 496193509, 470516330, 444768294,
    418953276, 393075166, 367137861, 341145265, 315101295, 289009871,
    262874923, 236700388, 210490206, 184248325, 157978697, 131685278,
    105372028, 79042909, 52701887, 26352928, 0, -26352928,
    -52701887, -79042909, -105372028, -131685278, -157978697, -184248325,
    -210490206, -236700388, -262874923, -289009871, -315101295, -341145265,
    -367137861, -393075166, -418953276, -444768294, -470516330, -496193509,
    -521795963, -547319836, -572761285, -598116479, -623381598, -648552838,
    -673626408, -698598533, -723465451, -748223418, -772868706, -797397602,
    -821806413, -846091463, -870249095, -894275671, -918167572, -941921200,
    -965532978, -988999351, -1012316784, -1035481766, -1058490808, -1081340445,
    -1104027237, -1126547765, -1148898640, -1171076495, -1193077991, -1214899813,
    -1236538675, -1257991320, -1279254516, -1300325060, -1321199781, -1341875533,
    -1362349204, -1382617710, -1402678000, -1422527051, -1442161874, -1461579514,
    -1480777044, -1499751576, -1518500250, -1537020244, -1555308768, -1573363068,
    -1591180426, -1608758157, -1626093616, -1643184191, -1660027308, -1676620432,
    -1692961062, -1709046739, -1724875040, -1740443581, -1755750017, -1770792044,
    -1785567396, -1800073849, -1814309216, -1828271356, -1841958164, -1855367581,
    -1868497586, -1881346202, -1893911494, -1906191570, -1918184581, -1929888720,
    -1941302225, -1952423377, -1963250501, -1973781967, -1984016189, -1993951625,
    -2003586779, -2012920201, -2021950484, -2030676269, -2039096241, -2047209133,
    -2055013723, -2062508835, -2069693342, -2076566160, -2083126254, -2089372638,
    -2095304370, -2100920556, -2106220352, -2111202959, -2115867626, -2120213651,
    -2124240380, -2127947206, -2131333572, -2134398966, -2137142927, -2139565043,
    -2141664948, -2143442326, -2144896910, -2146028480, -2146836866, -2147321946,
    -2147483648, -2147321946, -2146836866, -2146028480, -2144896910, -2143442326,
    -2141664948, -2139565043, -2137142927, -2134398966, -2131333572, -2127947206,
    -2124240380, -2120213651, -2115867626, -2111202959, -2106220352, -2100920556,
    -2095304370, -2089372638, -2083126254, -2076566160, -2069693342, -2062508835,
    -2055013723, -2047209133, -2039096241, -2030676269, -2021950484, -2012920201,
    -2003586779, -1993951625, -1984016189, -1973781967, -1963250501, -1952423377,
    -1941302225, -1929888720, -1918184581, -1906191570, -1893911494, -1881346202,
    -1868497586, -1855367581, -1841958164, -1828271356, -1814309216, -1800073849,
    -1785567396, -1770792044, -1755750017, -1740443581, -1724875040, -1709046739,
    -1692961062, -1676620432, -1660027308, -1643184191, -1626093616, -1608758157,
    -1591180426, -1573363068, -1555308768, -1537020244, -1518500250, -1499751576,
    -1480777044, -1461579514, -1442161874, -1422527051, -1402678000, -1382617710,
    -1362349204, -1341875533, -1321199781, -1300325060, -1279254516, -1257991320,
    -1236538675, -1214899813, -1193077991, -1171076495, -1148898640, -1126547765,
    -1104027237, -1081340445, -1058490808, -1035481766, -1012316784, -988999351,
    -965532978, -941921200, -918167572, -894275671, -870249095, -846091463,
    -821806413, -797397602, -772868706, -748223418, -723465451, -698598533,
    -673626408, -648552838, -623381598, -598116479, -572761285, -547319836,
    -521795963, -496193509, -470516330, -444768294, -418953276, -393075166,
    -367137861, -341145265, -315101295, -289009871, -262874923, -236700388,
    -210490206, -184248325, -157978697, -131685278, -105372028, -79042909,
    -52701887, -26352928,
];

/// The attack curve, rising from 0 to `u32::MAX`.
pub const ADSR_ATTACK_TABLE: [u32; 256] = [
    0, 32425447, 64660715, 96706921, 128565174, 160236575,
    191722220, 223023200, 254140596, 285075486, 315828941, 346402024,
    376795793, 407011300, 437049591, 466911704, 496598673, 526111526,
    555451284, 584618961, 613615568, 642442106, 671099575, 699588965,
    727911262, 756067447, 784058493, 811885370, 839549039, 867050459,
    894390580, 921570349, 948590707, 975452588, 1002156922, 1028704632,
    1055096638, 1081333852, 1107417183, 1133347533, 1159125799, 1184752874,
    1210229643, 1235556989, 1260735788, 1285766911, 1310651225, 1335389590,
    1359982862, 1384431893, 1408737527, 1432900608, 1456921969, 1480802444,
    1504542857, 1528144031, 1551606782, 1574931922, 1598120258, 1621172592,
    1644089722, 1666872442, 1689521539, 1712037797, 1734421995, 1756674908,
    1778797305, 1800789953, 1822653613, 1844389039, 1865996986, 1887478201,
    1908833426, 1930063401, 1951168860, 1972150534, 1993009149, 2013745426,
    2034360083, 2054853833, 2075227386, 2095481446, 2115616714, 2135633887,
    2155533658, 2175316715, 2194983743, 2214535422, 2233972428, 2253295435,
    2272505111, 2291602120, 2310587124, 2329460779, 2348223738, 2366876651,
    2385420163, 2403854916, 2422181547, 2440400692, 2458512979, 2476519036,
    2494419486, 2512214949, 2529906039, 2547493370, 2564977550, 2582359183,
    2599638872, 2616817213, 2633894803, 2650872230, 2667750084, 2684528948,
    2701209402, 2717792024, 2734277387, 2750666062, 2766958617, 2783155614,
    2799257614, 2815265175, 2831178850, 2846999190, 2862726742, 2878362051,
    2893905657, 2909358099, 2924719911, 2939991624, 2955173768, 2970266867,
    2985271444, 3000188018, 3015017104, 3029759217, 3044414866, 3058984558,
    3073468798, 3087868087, 3102182922, 3116413800, 3130561213, 3144625649,
    3158607597, 3172507539, 3186325957, 3200063329, 3213720129, 3227296832,
    3240793906, 3254211818, 3267551034, 3280812013, 3293995216, 3307101098,
    3320130113, 3333082712, 3345959343, 3358760451, 3371486480, 3384137869,
    3396715057, 3409218478, 3421648566, 3434005751, 3446290459, 3458503117,
    3470644146, 3482713967, 3494712997, 3506641653, 3518500345, 3530289486,
    3542009482, 3553660739, 3565243661, 3576758648, 3588206098, 3599586408,
    3610899972, 3622147180, 3633328423, 3644444087, 3655494557, 3666480214,
    3677401440, 3688258612, 3699052105, 3709782294, 3720449550, 3731054241,
    3741596734, 3752077395, 3762496586, 3772854667, 3783151998, 3793388934,
    3803565829, 3813683036, 3823740904, 3833739783, 3843680017, 3853561950,
    3863385926, 3873152283, 3882861359, 3892513491, 3902109012, 3911648255,
    3921131549, 3930559223, 3939931602, 3949249012, 3958511775, 3967720210,
    3976874638, 3985975373, 3995022733, 4004017028, 4012958572, 4021847672,
    4030684637, 4039469773, 4048203383, 4056885770, 4065517233, 4074098073,
    4082628585, 4091109065, 4099539806, 4107921100, 4116253237, 4124536505,
    4132771192, 4140957581, 4149095956, 4157186599, 4165229790, 4173225807,
    4181174926, 4189077423, 4196933571, 4204743643, 4212507907, 4220226634,
    4227900089, 4235528539, 4243112248, 4250651477, 4258146488, 4265597541,
    4273004892, 4280368799, 4287689515, 4294967295,
];

/// The decay curve, falling from `u32::MAX` to 0; release reuses it.
pub const ADSR_DECAY_TABLE: [u32; 256] = [
    4294967295, 4226873738, 4159839981, 4093849530, 4028886147, 3964933847,
    3901976893, 3839999793, 3778987299, 3718924395, 3659796304, 3601588476,
    3544286588, 3487876539, 3432344451, 3377676657, 3323859707, 3270880357,
    3218725572, 3167382518, 3116838562, 3067081266, 3018098387, 2969877871,
    2922407855, 2875676656, 2829672776, 2784384895, 2739801870, 2695912730,
    2652706676, 2610173075, 2568301463, 2527081535, 2486503150, 2446556323,
    2407231223, 2368518174, 2330407651, 2292890276, 2255956817, 2219598186,
    2183805436, 2148569761, 2113882490, 2079735087, 2046119151, 2013026410,
    1980448720, 1948378065, 1916806555, 1885726420, 1855130012, 1825009804,
    1795358383, 1766168453, 1737432832, 1709144449, 1681296344, 1653881662,
    1626893660, 1600325696, 1574171233, 1548423835, 1523077167, 1498124991,
    1473561168, 1449379653, 1425574497, 1402139841, 1379069920, 1356359056,
    1334001662, 1311992236, 1290325362, 1268995708, 1247998027, 1227327151,
    1206977995, 1186945550, 1167224889, 1147811157, 1128699578, 1109885450,
    1091364143, 1073131099, 1055181832, 1037511926, 1020117032, 1002992870,
    986135227, 969539954, 953202968, 937120249, 921287839, 905701844,
    890358427, 875253813, 860384286, 845746186, 831335912, 817149918,
    803184713, 789436861, 775902979, 762579737, 749463856, 736552109,
    723841319, 711328359, 699010148, 686883657, 674945902, 663193944,
    651624892, 640235900, 629024164, 617986927, 607121472, 596425126,
    585895257, 575529273, 565324624, 555278799, 545389326, 535653772,
    526069741, 516634875, 507346852, 498203386, 489202229, 480341164,
    471618012, 463030626, 454576894, 446254734, 438062099, 429996974,
    422057373, 414241343, 406546961, 398972334, 391515597, 384174916,
    376948485, 369834525, 362831285, 355937044, 349150103, 342468794,
    335891472, 329416518, 323042340, 316767369, 310590061, 304508896,
    298522377, 292629032, 286827410, 281116084, 275493649, 269958720,
    264509936, 259145957, 253865462, 248667152, 243549748, 238511990,
    233552640, 228670476, 223864298, 219132923, 214475186, 209889942,
    205376062, 200932435, 196557969, 192251586, 188012227, 183838849,
    179730426, 175685945, 171704412, 167784847, 163926286, 160127779,
    156388391, 152707203, 149083309, 145515816, 142003848, 138546539,
    135143040, 131792512, 128494131, 125247086, 122050578, 118903820,
    115806037, 112756468, 109754363, 106798981, 103889597, 101025494,
    98205968, 95430325, 92697881, 90007965, 87359914, 84753077,
    82186813, 79660490, 77173486, 74725190, 72314999, 69942319,
    67606568, 65307170, 63043560, 60815180, 58621482, 56461927,
    54335983, 52243127, 50182844, 48154627, 46157977, 44192403,
    42257420, 40352553, 38477334, 36631300, 34813998, 33024980,
    31263806, 29530042, 27823263, 26143048, 24488984, 22860663,
    21257685, 19679656, 18126187, 16596896, 15091407, 13609349,
    12150358, 10714074, 9300144, 7908221, 6537961, 5189028,
    3861090, 2553819, 1266895, 0,
];

} // verus!
